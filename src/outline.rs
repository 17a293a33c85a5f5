//! Feed URLs of an OPML subscription list: outlines nest in groups, and a
//! Fediverse handle may stand where a URL is expected.

use vstd::prelude::*;
use vstd::string::*;
use crate::text::{views, concat2, concat3};
use crate::patterns::{regex_captures, captures};

verus! {

/// An OPML outline: a feed when it has an `xmlUrl`, a group of outlines, or both.
pub struct Outline {
    pub text: String,
    pub xml_url: Option<String>,
    pub outlines: Vec<Outline>,
}

/// A Fediverse handle `@user@instance` as the profile URL
/// `https://instance/@user`; anything else as it is.
pub open spec fn normalized_url(url: Seq<char>) -> Seq<char> {
    match regex_captures("^@([^@]+)@(.+)$"@, url) {
        Some(g) => if g.len() > 2 { "https://"@ + g[2] + "/@"@ + g[1] } else { url },
        None => url,
    }
}

/// The feed URL of one outline itself (not of its children): its non-empty
/// `xmlUrl`, normalized.
pub open spec fn own_url(o: Outline) -> Seq<Seq<char>> {
    match o.xml_url {
        Some(u) => if u@.len() > 0 { seq![normalized_url(u@)] } else { Seq::empty() },
        None => Seq::empty(),
    }
}

/// The feed URLs of an outline and of all the outlines nested in it, depth first.
pub open spec fn outline_urls(o: Outline) -> Seq<Seq<char>>
    decreases o, o.outlines@.len() + 1,
{
    own_url(o) + children_urls(o, o.outlines@.len() as int)
}

/// The feed URLs of the first `n` children of `o`, in order.
pub open spec fn children_urls(o: Outline, n: int) -> Seq<Seq<char>>
    decreases o, n
    via children_urls_decreases
{
    if n <= 0 || n > o.outlines@.len() {
        Seq::empty()
    } else {
        children_urls(o, n - 1) + outline_urls(o.outlines@[n - 1])
    }
}

#[via_fn]
pub proof fn children_urls_decreases(o: Outline, n: int) {
    if n > 0 && n <= o.outlines@.len() {
        proof_decreases_child(o, n - 1);
    }
}

pub proof fn proof_decreases_child(o: Outline, i: int)
    requires
        0 <= i < o.outlines@.len(),
    ensures
        decreases_to!(o => o.outlines@[i]),
{
    assert(decreases_to!(o => o.outlines));
    assert(decreases_to!(o.outlines => o.outlines@[i]));
}

/// The feed URLs of the first `n` outlines of `os`, in order.
pub open spec fn list_urls(os: Seq<Outline>, n: int) -> Seq<Seq<char>>
    decreases n,
{
    if n <= 0 || n > os.len() {
        Seq::empty()
    } else {
        list_urls(os, n - 1) + outline_urls(os[n - 1])
    }
}

/// Converts a Fediverse handle `@user@instance` into `https://instance/@user`.
pub fn normalize_url(url: &str) -> (r: String)
    ensures
        r@ == normalized_url(url@),
{
    match captures("^@([^@]+)@(.+)$", url) {
        Some(g) => if g.len() > 2 {
            let a = concat3("https://", g[2].as_str(), "/@");
            concat2(a.as_str(), g[1].as_str())
        } else {
            String::from_str(url)
        },
        None => String::from_str(url),
    }
}

fn collect_urls(o: &Outline, out: &mut Vec<String>)
    ensures
        views(final(out)@) == views(old(out)@) + outline_urls(*o),
    decreases o,
{
    let ghost start = views(out@);
    if let Some(u) = &o.xml_url {
        if u.unicode_len() > 0 {
            let n = normalize_url(u.as_str());
            out.push(n);
            proof {
                assert(views(out@) =~= views(old(out)@).push(n@));
            }
        }
    }
    assert(views(out@) =~= start + own_url(*o));
    let mut i: usize = 0;
    while i < o.outlines.len()
        invariant
            i <= o.outlines@.len(),
            views(out@) == start + own_url(*o) + children_urls(*o, i as int),
        decreases o.outlines@.len() - i,
    {
        proof {
            proof_decreases_child(*o, i as int);
        }
        let ghost before = views(out@);
        collect_urls(&o.outlines[i], out);
        assert(children_urls(*o, i + 1) == children_urls(*o, i as int) + outline_urls(o.outlines@[i as int]));
        assert(views(out@) =~= start + own_url(*o) + children_urls(*o, i + 1));
        i = i + 1;
    }
}

/// The feed URLs of all `outlines` and of the outlines nested in them, depth
/// first, each Fediverse handle turned into its profile URL.
pub fn extract_feed_urls(outlines: &Vec<Outline>) -> (r: Vec<String>)
    ensures
        views(r@) == list_urls(outlines@, outlines@.len() as int),
{
    let mut r: Vec<String> = Vec::new();
    let mut i: usize = 0;
    while i < outlines.len()
        invariant
            i <= outlines@.len(),
            views(r@) == list_urls(outlines@, i as int),
        decreases outlines@.len() - i,
    {
        collect_urls(&outlines[i], &mut r);
        assert(views(r@) =~= list_urls(outlines@, i + 1));
        i = i + 1;
    }
    r
}

} // verus!
