//! The data model: feeds, articles, notifications and validation metadata.

use vstd::prelude::*;
use vstd::string::*;
use crate::text::{views, opt_view, concat2, concat3, same_text};

verus! {

/// The document format of a feed.
#[derive(Debug, Clone, Copy, PartialEq, Eq, Structural)]
pub enum FeedType {
    Rss,
    Atom,
    Json,
}

impl FeedType {
    pub open spec fn name(self) -> Seq<char> {
        match self {
            FeedType::Rss => "rss"@,
            FeedType::Atom => "atom"@,
            FeedType::Json => "json"@,
        }
    }

    /// The lowercase name under which the type is stored.
    pub fn as_str(&self) -> (r: &'static str)
        ensures
            r@ == self.name(),
    {
        match self {
            FeedType::Rss => "rss",
            FeedType::Atom => "atom",
            FeedType::Json => "json",
        }
    }
}

/// What `str::to_lowercase` makes of a string (full Unicode lowercasing).
pub uninterp spec fn lower_of(s: Seq<char>) -> Seq<char>;

/// Relies on `str::to_lowercase`: the result depends on the characters alone.
#[verifier::external_body]
pub(crate) fn lowercase(s: &str) -> (r: String)
    ensures
        r@ == lower_of(s@),
{
    s.to_lowercase()
}

/// The feed type named `lower` (a name already lowercased), or the error
/// that quotes the name as it was given, `original`.
pub fn feed_type_from_lower(lower: &str, original: &str) -> (r: Result<FeedType, String>)
    ensures
        lower@ == "rss"@ ==> r == Ok::<FeedType, String>(FeedType::Rss),
        lower@ == "atom"@ ==> r == Ok::<FeedType, String>(FeedType::Atom),
        lower@ == "json"@ ==> r == Ok::<FeedType, String>(FeedType::Json),
        lower@ != "rss"@ && lower@ != "atom"@ && lower@ != "json"@
            ==> (r matches Err(m) && m@ == "Unknown feed type: "@ + original@),
{
    proof {
        reveal_strlit("rss");
        reveal_strlit("atom");
        reveal_strlit("json");
        assert("rss"@.len() == 3);
        assert("atom"@.len() == 4);
        assert("json"@.len() == 4);
        assert("atom"@[0] != "json"@[0]);
    }
    if same_text(lower, "rss") {
        Ok(FeedType::Rss)
    } else if same_text(lower, "atom") {
        Ok(FeedType::Atom)
    } else if same_text(lower, "json") {
        Ok(FeedType::Json)
    } else {
        Err(concat2("Unknown feed type: ", original))
    }
}

impl std::str::FromStr for FeedType {
    type Err = String;

    /// The feed type of a name, in any letter case.
    fn from_str(s: &str) -> Result<FeedType, String> {
        let lower = lowercase(s);
        feed_type_from_lower(lower.as_str(), s)
    }
}

/// The strategy that validates and fetches a feed.
#[derive(Debug, Clone, Copy, PartialEq, Eq, Structural)]
pub enum SourceType {
    RssAtom,
    YouTube,
    Mastodon,
    WordPress,
    Blogger,
}

impl SourceType {
    pub open spec fn name(self) -> Seq<char> {
        match self {
            SourceType::RssAtom => "rss_atom"@,
            SourceType::YouTube => "youtube"@,
            SourceType::Mastodon => "mastodon"@,
            SourceType::WordPress => "wordpress"@,
            SourceType::Blogger => "blogger"@,
        }
    }

    /// The lowercase name under which the kind is stored.
    pub fn as_str(&self) -> (r: &'static str)
        ensures
            r@ == self.name(),
    {
        match self {
            SourceType::RssAtom => "rss_atom",
            SourceType::YouTube => "youtube",
            SourceType::Mastodon => "mastodon",
            SourceType::WordPress => "wordpress",
            SourceType::Blogger => "blogger",
        }
    }
}

/// The source kind named `lower` (a name already lowercased; `rss` and
/// `atom` name the generic kind too), or the error that quotes the name as it
/// was given, `original`.
pub fn source_type_from_lower(lower: &str, original: &str) -> (r: Result<SourceType, String>)
    ensures
        (lower@ == "rss_atom"@ || lower@ == "rss"@ || lower@ == "atom"@)
            ==> r == Ok::<SourceType, String>(SourceType::RssAtom),
        lower@ == "youtube"@ ==> r == Ok::<SourceType, String>(SourceType::YouTube),
        lower@ == "mastodon"@ ==> r == Ok::<SourceType, String>(SourceType::Mastodon),
        lower@ == "wordpress"@ ==> r == Ok::<SourceType, String>(SourceType::WordPress),
        lower@ == "blogger"@ ==> r == Ok::<SourceType, String>(SourceType::Blogger),
        !(lower@ == "rss_atom"@ || lower@ == "rss"@ || lower@ == "atom"@ || lower@ == "youtube"@
            || lower@ == "mastodon"@ || lower@ == "wordpress"@ || lower@ == "blogger"@)
            ==> (r matches Err(m) && m@ == "Unknown source type: "@ + original@),
{
    proof {
        reveal_strlit("rss_atom");
        reveal_strlit("rss");
        reveal_strlit("atom");
        reveal_strlit("youtube");
        reveal_strlit("mastodon");
        reveal_strlit("wordpress");
        reveal_strlit("blogger");
        assert("rss_atom"@.len() == 8);
        assert("rss"@.len() == 3);
        assert("atom"@.len() == 4);
        assert("youtube"@.len() == 7);
        assert("mastodon"@.len() == 8);
        assert("wordpress"@.len() == 9);
        assert("blogger"@.len() == 7);
        assert("youtube"@[0] != "blogger"@[0]);
        assert("mastodon"@[0] != "rss_atom"@[0]);
    }
    if same_text(lower, "rss_atom") || same_text(lower, "rss") || same_text(lower, "atom") {
        Ok(SourceType::RssAtom)
    } else if same_text(lower, "youtube") {
        Ok(SourceType::YouTube)
    } else if same_text(lower, "mastodon") {
        Ok(SourceType::Mastodon)
    } else if same_text(lower, "wordpress") {
        Ok(SourceType::WordPress)
    } else if same_text(lower, "blogger") {
        Ok(SourceType::Blogger)
    } else {
        Err(concat2("Unknown source type: ", original))
    }
}

impl std::str::FromStr for SourceType {
    type Err = String;

    /// The source kind of a name, in any letter case.
    fn from_str(s: &str) -> Result<SourceType, String> {
        let lower = lowercase(s);
        source_type_from_lower(lower.as_str(), s)
    }
}

/// A persisted subscription.
#[derive(Debug, Clone)]
pub struct Feed {
    pub id: Option<i64>,
    pub url: String,
    pub feed_url: String,
    pub title: String,
    pub feed_type: FeedType,
    pub source_type: SourceType,
    pub created_at: Option<String>,
}

impl Feed {
    /// A feed that has not been persisted yet: no id, no creation time.
    pub fn new(
        url: String,
        feed_url: String,
        title: String,
        feed_type: FeedType,
        source_type: SourceType,
    ) -> (r: Self)
        ensures
            r.id is None,
            r.url == url,
            r.feed_url == feed_url,
            r.title == title,
            r.feed_type == feed_type,
            r.source_type == source_type,
            r.created_at is None,
    {
        Feed { id: None, url, feed_url, title, feed_type, source_type, created_at: None }
    }
}

/// The dedup identity of an article within a feed: `title + ":" + id`.
pub open spec fn key_of(feed_title: Seq<char>, article_id: Seq<char>) -> Seq<char> {
    feed_title + ":"@ + article_id
}

/// An article's fields as mathematical values.
pub struct ArticleView {
    pub id: Seq<char>,
    pub title: Seq<char>,
    pub content: Option<Seq<char>>,
    pub links: Seq<Seq<char>>,
    pub published: Option<Seq<char>>,
}

impl View for Article {
    type V = ArticleView;

    open spec fn view(&self) -> ArticleView {
        ArticleView {
            id: self.id@,
            title: self.title@,
            content: opt_view(self.content),
            links: views(self.links@),
            published: opt_view(self.published),
        }
    }
}

/// The views of a sequence of articles.
pub open spec fn article_views(v: Seq<Article>) -> Seq<ArticleView> {
    v.map_values(|a: Article| a@)
}

/// An article as fetched from a source; never persisted itself.
#[derive(Debug, Clone)]
pub struct Article {
    pub id: String,
    pub title: String,
    pub content: Option<String>,
    pub links: Vec<String>,
    pub published: Option<String>,
}

impl Article {
    /// An article with an id and a title, and nothing else.
    pub fn new(id: String, title: String) -> (r: Self)
        ensures
            r.id == id,
            r.title == title,
            r.content is None,
            r.links@.len() == 0,
            r.published is None,
    {
        Article { id, title, content: None, links: Vec::new(), published: None }
    }

    /// The key under which this article is recorded as notified for a feed titled `feed_title`.
    pub fn cache_key(&self, feed_title: &str) -> (r: String)
        ensures
            r@ == key_of(feed_title@, self.id@),
    {
        concat3(feed_title, ":", self.id.as_str())
    }

    /// Equal fields, the links element for element.
    pub open spec fn same(&self, o: &Article) -> bool {
        &&& self.id == o.id
        &&& self.title == o.title
        &&& self.content == o.content
        &&& self.links@ == o.links@
        &&& self.published == o.published
    }

    /// An exact copy of this article.
    pub fn duplicate(&self) -> (r: Self)
        ensures
            r.same(self),
            r@ == self@,
    {
        Article {
            id: self.id.clone(),
            title: self.title.clone(),
            content: copy_opt_string(&self.content),
            links: copy_strings(&self.links),
            published: copy_opt_string(&self.published),
        }
    }

    pub fn with_content(self, content: Option<String>) -> (r: Self)
        ensures
            r.id == self.id,
            r.title == self.title,
            r.content == content,
            r.links == self.links,
            r.published == self.published,
    {
        Article { content, ..self }
    }

    pub fn with_links(self, links: Vec<String>) -> (r: Self)
        ensures
            r.id == self.id,
            r.title == self.title,
            r.content == self.content,
            r.links == links,
            r.published == self.published,
    {
        Article { links, ..self }
    }

    pub fn with_published(self, published: Option<String>) -> (r: Self)
        ensures
            r.id == self.id,
            r.title == self.title,
            r.content == self.content,
            r.links == self.links,
            r.published == published,
    {
        Article { published, ..self }
    }
}

/// `links` joined with single spaces.
pub open spec fn join_spaced(links: Seq<Seq<char>>) -> Seq<char>
    decreases links.len(),
{
    if links.len() == 0 {
        Seq::empty()
    } else if links.len() == 1 {
        links[0]
    } else {
        join_spaced(links.drop_last()) + " "@ + links.last()
    }
}

/// The message text of a notification:
/// `"<feedTitle> <articleTitle>: <text> <links joined by space>"`, where the
/// colon and text are left out when the text is empty, and the trailing space
/// and links when there are no links.
pub open spec fn message_of(
    feed_title: Seq<char>,
    article_title: Seq<char>,
    text: Seq<char>,
    links: Seq<Seq<char>>,
) -> Seq<char> {
    feed_title + " "@ + article_title
        + (if text.len() == 0 { Seq::empty() } else { ": "@ + text })
        + (if links.len() == 0 { Seq::empty() } else { " "@ + join_spaced(links) })
}

/// What is sent for one article of one feed.
#[derive(Debug, Clone)]
pub struct Notification {
    pub feed_title: String,
    pub article_title: String,
    pub text: String,
    pub links: Vec<String>,
}

/// A copy of `v`, element for element.
pub fn copy_strings(v: &Vec<String>) -> (r: Vec<String>)
    ensures
        r@ == v@,
{
    let mut r: Vec<String> = Vec::new();
    let mut i: usize = 0;
    while i < v.len()
        invariant
            i <= v@.len(),
            r@ =~= v@.subrange(0, i as int),
        decreases v@.len() - i,
    {
        r.push(v[i].clone());
        i = i + 1;
    }
    assert(r@ =~= v@);
    r
}

pub fn copy_opt_string(o: &Option<String>) -> (r: Option<String>)
    ensures
        r == *o,
{
    match o {
        Some(s) => Some(s.clone()),
        None => None,
    }
}

/// `links` joined with single spaces.
pub fn join_links(links: &Vec<String>) -> (r: String)
    ensures
        r@ == join_spaced(views(links@)),
{
    let mut r = String::new();
    let n = links.len();
    if n == 0 {
        return r;
    }
    r.append(links[0].as_str());
    let mut i: usize = 1;
    while i < n
        invariant
            1 <= i <= n,
            n == links@.len(),
            r@ == join_spaced(views(links@.subrange(0, i as int))),
        decreases n - i,
    {
        proof {
            let next = views(links@.subrange(0, i + 1));
            assert(next.drop_last() =~= views(links@.subrange(0, i as int)));
        }
        r.append(" ");
        r.append(links[i].as_str());
        i = i + 1;
    }
    assert(links@.subrange(0, n as int) =~= links@);
    r
}

impl Notification {
    pub open spec fn message(&self) -> Seq<char> {
        message_of(self.feed_title@, self.article_title@, self.text@, views(self.links@))
    }

    /// The notification for `article` of `feed`: the body text is the article's
    /// content, or empty when it has none.
    pub fn from_article(feed: &Feed, article: &Article) -> (r: Self)
        ensures
            r.feed_title@ == feed.title@,
            r.article_title@ == article.title@,
            r.text@ == (match article.content {
                Some(c) => c@,
                None => Seq::<char>::empty(),
            }),
            r.links@ == article.links@,
    {
        let text = match &article.content {
            Some(c) => c.clone(),
            None => String::new(),
        };
        let links = copy_strings(&article.links);
        Notification {
            feed_title: feed.title.clone(),
            article_title: article.title.clone(),
            text,
            links,
        }
    }

    /// The message text, laid out as [`message_of`] states.
    pub fn format(&self) -> (r: String)
        ensures
            r@ == self.message(),
    {
        compose_message(
            self.feed_title.as_str(),
            self.article_title.as_str(),
            self.text.as_str(),
            &self.links,
        )
    }
}

/// The message for the given parts, laid out as [`message_of`] states.
pub fn compose_message(
    feed_title: &str,
    article_title: &str,
    text: &str,
    links: &Vec<String>,
) -> (r: String)
    ensures
        r@ == message_of(feed_title@, article_title@, text@, views(links@)),
{
    let mut message = concat3(feed_title, " ", article_title);
    if text.unicode_len() != 0 {
        message.append(": ");
        message.append(text);
    }
    if links.len() != 0 {
        message.append(" ");
        let joined = join_links(links);
        message.append(joined.as_str());
    }
    message
}

/// What validating a URL yields, before the feed is first persisted.
#[derive(Debug, Clone)]
pub struct FeedMetadata {
    pub title: String,
    pub feed_type: FeedType,
    pub feed_url: String,
    pub source_type: SourceType,
    pub description: Option<String>,
}

} // verus!
