//! Feed documents, as `feed-rs` parses them, and the articles and metadata
//! the sources take from them.

use feed_rs::parser::{parse, ParseFeedError};
use vstd::prelude::*;
use vstd::string::*;
use crate::text::{views, opt_view, concat2, same_text};
use crate::html::{html_to_text, collapse_white, raw_text, fragment_nodes};
use crate::domain::{Article, FeedType, SourceType, FeedMetadata, copy_strings, copy_opt_string};
use crate::errors::FeederError;

verus! {

/// One entry of a parsed feed; timestamps in RFC 3339.
pub struct EntryDoc {
    pub id: String,
    pub title: Option<String>,
    pub content: Option<String>,
    pub summary: Option<String>,
    pub links: Vec<String>,
    pub published: Option<String>,
    pub updated: Option<String>,
}

/// A parsed feed; `kind` is the name of the parser's format variant
/// (`Atom`, `JSON`, `RSS0`, `RSS1` or `RSS2`).
pub struct FeedDoc {
    pub kind: String,
    pub title: Option<String>,
    pub description: Option<String>,
    pub entries: Vec<EntryDoc>,
}

/// An entry without its id: the parser makes up a random id for an entry
/// that has neither an id nor a link, so ids are not a function of the input.
pub struct EntryShape {
    pub title: Option<Seq<char>>,
    pub content: Option<Seq<char>>,
    pub summary: Option<Seq<char>>,
    pub links: Seq<Seq<char>>,
    pub published: Option<Seq<char>>,
    pub updated: Option<Seq<char>>,
}

pub struct FeedShape {
    pub kind: Seq<char>,
    pub title: Option<Seq<char>>,
    pub description: Option<Seq<char>>,
    pub entries: Seq<EntryShape>,
}

impl EntryDoc {
    pub open spec fn shape(&self) -> EntryShape {
        EntryShape {
            title: opt_view(self.title),
            content: opt_view(self.content),
            summary: opt_view(self.summary),
            links: views(self.links@),
            published: opt_view(self.published),
            updated: opt_view(self.updated),
        }
    }
}

impl FeedDoc {
    pub open spec fn shape(&self) -> FeedShape {
        FeedShape {
            kind: self.kind@,
            title: opt_view(self.title),
            description: opt_view(self.description),
            entries: self.entries@.map_values(|e: EntryDoc| e.shape()),
        }
    }
}

/// What `feed_rs::parser::parse` makes of a document, ids aside; none when
/// it is no feed the parser reads.
pub uninterp spec fn parsed_feed(bytes: Seq<u8>) -> Option<FeedShape>;

/// The error type of `feed_rs::parser::parse`, carried through opaquely.
#[verifier::external_type_specification]
#[verifier::external_body]
pub struct ExParseFeedError(ParseFeedError);

/// Relies on `feed_rs::parser::parse` (RSS 0.x/1/2, Atom and JSON Feed): the
/// format, title, description and entries it reads from `bytes`.
#[verifier::external_body]
pub(crate) fn parse_feed(bytes: &[u8]) -> (r: Result<FeedDoc, ParseFeedError>)
    ensures
        match r {
            Ok(d) => parsed_feed(bytes@) == Some(d.shape()),
            Err(_) => parsed_feed(bytes@) is None,
        },
{
    parse(bytes).map(|f| FeedDoc {
        kind: format!("{:?}", f.feed_type), title: f.title.map(|t| t.content),
        description: f.description.map(|d| d.content),
        entries: f.entries.into_iter().map(|e| EntryDoc {
            id: e.id, title: e.title.map(|t| t.content), content: e.content.and_then(|c| c.body),
            summary: e.summary.map(|s| s.content), links: e.links.into_iter().map(|l| l.href).collect(),
            published: e.published.map(|d| d.to_rfc3339()), updated: e.updated.map(|d| d.to_rfc3339())
        }).collect()
    })
}

/// Relies on the `Display` text of `feed_rs::parser::ParseFeedError`.
#[verifier::external_body]
pub(crate) fn parse_error_text(e: &ParseFeedError) -> String {
    e.to_string()
}

/// The document in a fetched body, or a feed-parse error with the parser's message.
pub fn read_feed(body: &[u8]) -> (r: Result<FeedDoc, FeederError>)
    ensures
        match r {
            Ok(d) => parsed_feed(body@) == Some(d.shape()),
            Err(e) => parsed_feed(body@) is None && e is FeedParse,
        },
{
    match parse_feed(body) {
        Ok(d) => Ok(d),
        Err(e) => Err(FeederError::FeedParse(parse_error_text(&e))),
    }
}

/// Atom and JSON Feed are themselves; every RSS version is RSS.
pub open spec fn feed_type_of(kind: Seq<char>) -> FeedType {
    if kind == "Atom"@ {
        FeedType::Atom
    } else if kind == "JSON"@ {
        FeedType::Json
    } else {
        FeedType::Rss
    }
}

pub fn determine_feed_type(doc: &FeedDoc) -> (r: FeedType)
    ensures
        r == feed_type_of(doc.kind@),
{
    if same_text(doc.kind.as_str(), "Atom") {
        FeedType::Atom
    } else if same_text(doc.kind.as_str(), "JSON") {
        FeedType::Json
    } else {
        FeedType::Rss
    }
}

/// What validation reports of a feed found at `feed_url`: the document's
/// title ("Untitled Feed" when it has none), format and description.
pub fn metadata_of(doc: &FeedDoc, feed_url: &str, source_type: SourceType) -> (r: FeedMetadata)
    ensures
        r.title@ == (match doc.title {
            Some(t) => t@,
            None => "Untitled Feed"@,
        }),
        r.feed_type == feed_type_of(doc.kind@),
        r.feed_url@ == feed_url@,
        r.source_type == source_type,
        r.description == doc.description,
{
    let title = match &doc.title {
        Some(t) => t.clone(),
        None => String::from_str("Untitled Feed"),
    };
    FeedMetadata {
        title,
        feed_type: determine_feed_type(doc),
        feed_url: String::from_str(feed_url),
        source_type,
        description: copy_opt_string(&doc.description),
    }
}

/// The best timestamp of an entry: when it was published, else when it was updated.
pub open spec fn best_time(e: EntryDoc) -> Option<String> {
    match e.published {
        Some(p) => Some(p),
        None => e.updated,
    }
}

/// The article of a generic-feed entry: its id, its title ("Untitled" when it
/// has none), its links and best timestamp; no body, to keep notifications short.
pub open spec fn entry_article(e: EntryDoc, a: Article) -> bool {
    &&& a.id == e.id
    &&& a.title@ == (match e.title {
        Some(t) => t@,
        None => "Untitled"@,
    })
    &&& a.content is None
    &&& a.links@ == e.links@
    &&& a.published == best_time(e)
}

fn generic_article(e: &EntryDoc) -> (r: Article)
    ensures
        entry_article(*e, r),
{
    let title = match &e.title {
        Some(t) => t.clone(),
        None => String::from_str("Untitled"),
    };
    let published = match &e.published {
        Some(p) => Some(p.clone()),
        None => copy_opt_string(&e.updated),
    };
    Article::new(e.id.clone(), title).with_links(copy_strings(&e.links)).with_published(published)
}

/// The articles of a generic feed, one per entry, in document order.
pub fn articles_from_doc(doc: &FeedDoc) -> (r: Vec<Article>)
    ensures
        r@.len() == doc.entries@.len(),
        forall|i: int| 0 <= i < r@.len() ==> entry_article(doc.entries@[i], #[trigger] r@[i]),
{
    let mut r: Vec<Article> = Vec::new();
    let mut i: usize = 0;
    while i < doc.entries.len()
        invariant
            i <= doc.entries@.len(),
            r@.len() == i,
            forall|j: int| 0 <= j < i ==> entry_article(doc.entries@[j], #[trigger] r@[j]),
        decreases doc.entries@.len() - i,
    {
        r.push(generic_article(&doc.entries[i]));
        i = i + 1;
    }
    r
}

/// The index of the last space in `s`, or -1.
pub open spec fn last_space(s: Seq<char>) -> int
    decreases s.len(),
{
    if s.len() == 0 {
        -1
    } else if s.last() == ' ' {
        s.len() - 1
    } else {
        last_space(s.drop_last())
    }
}

/// `text` cut to fit a title of `max_len` characters: whole when it fits;
/// else its first `max_len` characters up to their last space, or all of
/// them when they hold none, followed by "...".
pub open spec fn title_cut(text: Seq<char>, max_len: nat) -> Seq<char> {
    if text.len() <= max_len {
        text
    } else {
        let head = text.subrange(0, max_len as int);
        if last_space(head) >= 0 {
            head.subrange(0, last_space(head)) + "..."@
        } else {
            head + "..."@
        }
    }
}

/// `text` cut to fit a title, as [`title_cut`] states.
pub fn truncate_for_title(text: &str, max_len: usize) -> (r: String)
    ensures
        r@ == title_cut(text@, max_len as nat),
{
    let n = text.unicode_len();
    if n <= max_len {
        return String::from_str(text);
    }
    let head = text.substring_char(0, max_len);
    let mut j: usize = max_len;
    assert(head@.subrange(0, max_len as int) =~= head@);
    while j > 0
        invariant
            j <= max_len,
            head@.len() == max_len,
            max_len < text@.len(),
            head@ == text@.subrange(0, max_len as int),
            last_space(head@) == last_space(head@.subrange(0, j as int)),
        decreases j,
    {
        assert(head@.subrange(0, j as int).drop_last() =~= head@.subrange(0, j - 1));
        if head.get_char(j - 1) == ' ' {
            assert(head@.subrange(0, j as int).last() == head@[j - 1]);
            assert(last_space(head@.subrange(0, j as int)) == j - 1);
            let kept = head.substring_char(0, j - 1);
            let r = concat2(kept, "...");
            assert(head@ == text@.subrange(0, max_len as int));
            assert(last_space(text@.subrange(0, max_len as int)) == j - 1);
            assert(r@ == text@.subrange(0, max_len as int).subrange(0, j - 1) + "..."@);
            return r;
        }
        j = j - 1;
    }
    concat2(head, "...")
}

/// The title of a Fediverse post: its own title when it has a non-empty one;
/// else the plain text of its content (or summary) cut to 200 characters, or
/// "Untitled" when that text is empty.
pub open spec fn post_title(e: EntryDoc) -> Seq<char> {
    match e.title {
        Some(t) if t@.len() > 0 => t@,
        _ => {
            let body = match e.content {
                Some(c) => c@,
                None => match e.summary {
                    Some(s) => s@,
                    None => Seq::empty(),
                },
            };
            let text = collapse_white(raw_text(fragment_nodes(body)));
            if text.len() == 0 { "Untitled"@ } else { title_cut(text, 200) }
        },
    }
}

/// The article of a Fediverse post: as a generic entry's, with [`post_title`]
/// for its title.
pub open spec fn post_article(e: EntryDoc, a: Article) -> bool {
    &&& a.id == e.id
    &&& a.title@ == post_title(e)
    &&& a.content is None
    &&& a.links@ == e.links@
    &&& a.published == best_time(e)
}

fn mastodon_article(e: &EntryDoc) -> (r: Article)
    ensures
        post_article(*e, r),
{
    let own = match &e.title {
        Some(t) => if t.unicode_len() > 0 {
            Some(t.clone())
        } else {
            None
        },
        None => None,
    };
    let title = match own {
        Some(t) => t,
        None => {
            let body = match &e.content {
                Some(c) => c.clone(),
                None => match &e.summary {
                    Some(s) => s.clone(),
                    None => String::new(),
                },
            };
            let text = html_to_text(body.as_str());
            if text.unicode_len() == 0 {
                String::from_str("Untitled")
            } else {
                truncate_for_title(text.as_str(), 200)
            }
        },
    };
    let published = match &e.published {
        Some(p) => Some(p.clone()),
        None => copy_opt_string(&e.updated),
    };
    Article::new(e.id.clone(), title).with_links(copy_strings(&e.links)).with_published(published)
}

/// The articles of a Fediverse feed, one per post, in document order.
pub fn mastodon_articles_from_doc(doc: &FeedDoc) -> (r: Vec<Article>)
    ensures
        r@.len() == doc.entries@.len(),
        forall|i: int| 0 <= i < r@.len() ==> post_article(doc.entries@[i], #[trigger] r@[i]),
{
    let mut r: Vec<Article> = Vec::new();
    let mut i: usize = 0;
    while i < doc.entries.len()
        invariant
            i <= doc.entries@.len(),
            r@.len() == i,
            forall|j: int| 0 <= j < i ==> post_article(doc.entries@[j], #[trigger] r@[j]),
        decreases doc.entries@.len() - i,
    {
        r.push(mastodon_article(&doc.entries[i]));
        i = i + 1;
    }
    r
}

/// The articles of a fetched feed body for strategy `kind`: Fediverse posts
/// get their titles from their text, every other feed is read generically. A
/// body that does not parse is a feed-parse error with the parser's message.
pub fn articles_from_body(kind: SourceType, body: &[u8]) -> (r: Result<Vec<Article>, FeederError>)
    ensures
        match parsed_feed(body@) {
            None => r matches Err(e) && e is FeedParse,
            Some(s) => r matches Ok(v) && v@.len() == s.entries.len(),
        },
        r matches Ok(v) ==> exists|d: FeedDoc| Some(d.shape()) == parsed_feed(body@)
            && v@.len() == d.entries@.len()
            && forall|i: int| 0 <= i < v@.len() ==> (if kind == SourceType::Mastodon {
                post_article(d.entries@[i], #[trigger] v@[i])
            } else {
                entry_article(d.entries@[i], v@[i])
            }),
{
    match read_feed(body) {
        Err(e) => Err(e),
        Ok(doc) => {
            let v = if kind == SourceType::Mastodon {
                mastodon_articles_from_doc(&doc)
            } else {
                articles_from_doc(&doc)
            };
            assert(doc.shape().entries.len() == doc.entries@.len());
            Ok(v)
        },
    }
}

} // verus!
