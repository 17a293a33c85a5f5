//! Regular-expression matching, as the `regex` crate performs it.

use vstd::prelude::*;
use crate::text::views;

verus! {

/// The capture groups (group 0 first, an unmatched group as empty text) of the
/// leftmost-first match of `pattern` in `text`, as `regex::Regex` finds it;
/// none when there is no match or the pattern does not compile.
pub uninterp spec fn regex_captures(pattern: Seq<char>, text: Seq<char>) -> Option<Seq<Seq<char>>>;

/// Relies on `regex::Regex::new` and `Regex::captures`: the groups of the
/// first match of `pattern` in `text`.
#[verifier::external_body]
pub(crate) fn captures(pattern: &str, text: &str) -> (r: Option<Vec<String>>)
    ensures
        match r {
            Some(g) => regex_captures(pattern@, text@) == Some(views(g@)),
            None => regex_captures(pattern@, text@) is None,
        },
{
    let re = regex::Regex::new(pattern).ok()?;
    let caps = re.captures(text)?;
    Some(caps.iter().map(|m| m.map_or(String::new(), |m| m.as_str().to_string())).collect())
}

/// The first capture group of the first match of `pattern` in `text`, when
/// there is a match with that group.
pub open spec fn first_group(pattern: Seq<char>, text: Seq<char>) -> Option<Seq<char>> {
    match regex_captures(pattern, text) {
        Some(g) => if g.len() > 1 { Some(g[1]) } else { None },
        None => None,
    }
}

/// The first capture group of the first match of `pattern` in `text`.
pub fn capture_group1(pattern: &str, text: &str) -> (r: Option<String>)
    ensures
        match r {
            Some(s) => first_group(pattern@, text@) == Some(s@),
            None => first_group(pattern@, text@) is None,
        },
{
    match captures(pattern, text) {
        Some(g) => if g.len() > 1 {
            Some(g[1].clone())
        } else {
            None
        },
        None => None,
    }
}

} // verus!
