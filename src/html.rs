//! HTML, as `scraper` parses it: the plain text of post bodies and the
//! channel id on a YouTube channel page.

use vstd::prelude::*;
use vstd::string::*;
use crate::errors::FeederError;
use crate::patterns::{first_group, capture_group1};
use crate::sources::channel_url_pattern;

verus! {

/// A node of a parsed fragment: text, an element (by tag name), or anything else.
#[derive(Debug, Clone)]
pub enum HtmlNode {
    Text(String),
    Element(String),
    Other,
}

pub enum HtmlNodeView {
    Text(Seq<char>),
    Element(Seq<char>),
    Other,
}

impl View for HtmlNode {
    type V = HtmlNodeView;

    open spec fn view(&self) -> HtmlNodeView {
        match self {
            HtmlNode::Text(t) => HtmlNodeView::Text(t@),
            HtmlNode::Element(n) => HtmlNodeView::Element(n@),
            HtmlNode::Other => HtmlNodeView::Other,
        }
    }
}

/// The nodes under the root element of `html` parsed as a fragment by
/// `scraper::Html::parse_fragment`, root included, in document order.
pub uninterp spec fn fragment_nodes(html: Seq<char>) -> Seq<HtmlNodeView>;

/// Relies on `scraper::Html::parse_fragment` and on walking the descendants
/// of its root element in document order.
#[verifier::external_body]
pub(crate) fn parse_fragment_nodes(html: &str) -> (r: Vec<HtmlNode>)
    ensures
        r@.map_values(|n: HtmlNode| n@) == fragment_nodes(html@),
{
    let document = scraper::Html::parse_fragment(html);
    let nodes = document.root_element().descendants().map(|n| match n.value() {
        scraper::Node::Text(t) => HtmlNode::Text(t.to_string()),
        scraper::Node::Element(e) => HtmlNode::Element(e.name().to_string()),
        _ => HtmlNode::Other,
    });
    nodes.collect()
}

/// The value of attribute `attr` on the first element of `html` (parsed as a
/// document) that CSS `selector` selects; none when no element is selected,
/// the first one lacks the attribute, or the selector does not parse.
pub uninterp spec fn selected_attr(html: Seq<char>, selector: Seq<char>, attr: Seq<char>) -> Option<Seq<char>>;

/// Relies on `scraper::Html::parse_document`, `scraper::Selector::parse`,
/// `Html::select` and `Element::attr`.
#[verifier::external_body]
pub(crate) fn first_selected_attr(html: &str, selector: &str, attr: &str) -> (r: Option<String>)
    ensures
        match r {
            Some(v) => selected_attr(html@, selector@, attr@) == Some(v@),
            None => selected_attr(html@, selector@, attr@) is None,
        },
{
    let selector = scraper::Selector::parse(selector).ok()?;
    let document = scraper::Html::parse_document(html);
    let first = document.select(&selector).next()?;
    first.value().attr(attr).map(|v| v.to_string())
}

/// The channel id on a YouTube channel page, by order of preference: the
/// `channelId` meta tag; the id in the canonical link; a `"channelId":"UC…"`
/// text; a `channel/UC…` text.
pub open spec fn page_channel_id(html: Seq<char>) -> Option<Seq<char>> {
    match selected_attr(html, "meta[itemprop='channelId']"@, "content"@) {
        Some(id) => Some(id),
        None => {
            let canonical = match selected_attr(html, "link[rel='canonical']"@, "href"@) {
                Some(href) => first_group(channel_url_pattern(), href),
                None => None,
            };
            match canonical {
                Some(id) => Some(id),
                None => match first_group("\"channelId\":\"(UC[\\w-]{22})\""@, html) {
                    Some(id) => Some(id),
                    None => first_group("channel/(UC[\\w-]{22})"@, html),
                },
            }
        },
    }
}

/// The channel id on a YouTube channel page, as [`page_channel_id`] finds it.
pub fn channel_id_from_page(html: &str) -> (r: Result<String, FeederError>)
    ensures
        match page_channel_id(html@) {
            Some(id) => r matches Ok(s) && s@ == id,
            None => r matches Err(e) && (e matches FeederError::FeedValidation(m)
                && m@ == "Could not find channel ID on YouTube page"@),
        },
{
    if let Some(id) = first_selected_attr(html, "meta[itemprop='channelId']", "content") {
        return Ok(id);
    }
    if let Some(href) = first_selected_attr(html, "link[rel='canonical']", "href") {
        if let Some(id) = capture_group1("youtube\\.com/channel/(UC[\\w-]{22})", href.as_str()) {
            return Ok(id);
        }
    }
    if let Some(id) = capture_group1("\"channelId\":\"(UC[\\w-]{22})\"", html) {
        return Ok(id);
    }
    if let Some(id) = capture_group1("channel/(UC[\\w-]{22})", html) {
        return Ok(id);
    }
    Err(FeederError::FeedValidation(String::from_str("Could not find channel ID on YouTube page")))
}

/// Unicode white space, as `char::is_whitespace` has it.
pub open spec fn is_white(c: char) -> bool {
    let u = c as u32;
    (9 <= u <= 13) || u == 32 || u == 0x85 || u == 0xA0 || u == 0x1680
        || (0x2000 <= u <= 0x200A) || u == 0x2028 || u == 0x2029 || u == 0x202F
        || u == 0x205F || u == 0x3000
}

pub fn char_is_white(c: char) -> (r: bool)
    ensures
        r == is_white(c),
{
    let u = c as u32;
    (9 <= u && u <= 13) || u == 32 || u == 0x85 || u == 0xA0 || u == 0x1680
        || (0x2000 <= u && u <= 0x200A) || u == 0x2028 || u == 0x2029 || u == 0x202F
        || u == 0x205F || u == 0x3000
}

/// The words of `s` joined by single spaces, and whether white space followed
/// the last word: `s` read left to right.
pub open spec fn collapse_state(s: Seq<char>) -> (Seq<char>, bool)
    decreases s.len(),
{
    if s.len() == 0 {
        (Seq::empty(), false)
    } else {
        let (out, gap) = collapse_state(s.drop_last());
        let c = s.last();
        if is_white(c) {
            (out, true)
        } else if out.len() == 0 {
            (seq![c], false)
        } else if gap {
            (out + seq![' ', c], false)
        } else {
            (out.push(c), false)
        }
    }
}

/// The words of `s` (its maximal runs of non-white characters) joined by single spaces.
pub open spec fn collapse_white(s: Seq<char>) -> Seq<char> {
    collapse_state(s).0
}

/// The words of `s` joined by single spaces.
pub fn collapse_whitespace(s: &str) -> (r: String)
    ensures
        r@ == collapse_white(s@),
{
    let n = s.unicode_len();
    let mut out = String::new();
    let mut gap = false;
    let mut i: usize = 0;
    while i < n
        invariant
            n == s@.len(),
            i <= n,
            (out@, gap) == collapse_state(s@.subrange(0, i as int)),
        decreases n - i,
    {
        let c = s.get_char(i);
        proof {
            assert(s@.subrange(0, i + 1).drop_last() =~= s@.subrange(0, i as int));
            assert(s@.subrange(0, i + 1).last() == c);
        }
        if char_is_white(c) {
            gap = true;
        } else {
            let piece = s.substring_char(i, i + 1);
            assert(piece@ =~= seq![c]);
            if out.unicode_len() != 0 && gap {
                out.append(" ");
                proof { reveal_strlit(" "); }
            }
            out.append(piece);
            proof {
                let st = collapse_state(s@.subrange(0, i as int));
                if st.0.len() == 0 {
                    assert(out@ =~= seq![c]);
                } else if st.1 {
                    assert(out@ =~= st.0 + seq![' ', c]);
                } else {
                    assert(out@ =~= st.0.push(c));
                }
            }
            gap = false;
        }
        i = i + 1;
    }
    assert(s@.subrange(0, n as int) =~= s@);
    out
}

/// The raw text of fragment nodes: each text node's text, and a space after
/// each `p`, `br` and `div` element.
pub open spec fn raw_text(nodes: Seq<HtmlNodeView>) -> Seq<char>
    decreases nodes.len(),
{
    if nodes.len() == 0 {
        Seq::empty()
    } else {
        raw_text(nodes.drop_last()) + match nodes.last() {
            HtmlNodeView::Text(t) => t,
            HtmlNodeView::Element(name) => if name == "p"@ || name == "br"@ || name == "div"@ {
                " "@
            } else {
                Seq::empty()
            },
            HtmlNodeView::Other => Seq::empty(),
        }
    }
}

fn is_block(name: &str) -> (r: bool)
    ensures
        r == (name@ == "p"@ || name@ == "br"@ || name@ == "div"@),
{
    crate::text::same_text(name, "p") || crate::text::same_text(name, "br")
        || crate::text::same_text(name, "div")
}

/// The plain text of parsed fragment nodes: their raw text with white space
/// collapsed and trimmed.
pub fn text_of_nodes(nodes: &Vec<HtmlNode>) -> (r: String)
    ensures
        r@ == collapse_white(raw_text(nodes@.map_values(|n: HtmlNode| n@))),
{
    let ghost views = nodes@.map_values(|n: HtmlNode| n@);
    let mut text = String::new();
    let mut i: usize = 0;
    while i < nodes.len()
        invariant
            i <= nodes@.len(),
            views == nodes@.map_values(|n: HtmlNode| n@),
            text@ == raw_text(views.subrange(0, i as int)),
        decreases nodes@.len() - i,
    {
        proof {
            assert(views.subrange(0, i + 1).drop_last() =~= views.subrange(0, i as int));
            assert(views.subrange(0, i + 1).last() == nodes@[i as int]@);
        }
        match &nodes[i] {
            HtmlNode::Text(t) => {
                text.append(t.as_str());
            },
            HtmlNode::Element(name) => {
                if is_block(name.as_str()) {
                    text.append(" ");
                }
            },
            HtmlNode::Other => {},
        }
        i = i + 1;
    }
    assert(views.subrange(0, nodes@.len() as int) =~= views);
    collapse_whitespace(text.as_str())
}

/// The plain text of an HTML fragment: its text with a space after each
/// paragraph, line break and division, white space collapsed and trimmed.
pub fn html_to_text(html: &str) -> (r: String)
    ensures
        r@ == collapse_white(raw_text(fragment_nodes(html@))),
{
    let nodes = parse_fragment_nodes(html);
    text_of_nodes(&nodes)
}

} // verus!
