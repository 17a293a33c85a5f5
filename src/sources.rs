//! The five source strategies: which URLs each one takes, and the feed
//! endpoint each one derives; and the registry that picks the strategy for a
//! URL by a fixed priority order.

use vstd::prelude::*;
use vstd::string::*;
use crate::text::{contains, ends_with, str_contains, str_ends_with, concat2, concat3};
use crate::domain::{Article, Feed, SourceType};
use crate::feed_doc::{FeedDoc, parsed_feed, articles_from_body, post_article, entry_article};
use crate::errors::FeederError;
use crate::urls::{parsed_url, parse_url, is_invalid_url, origin, host_of, wp_json_of, wp_json_url};
use crate::patterns::{first_group, capture_group1};

verus! {

/// Whether a YouTube channel URL: a channel, handle, custom or legacy user path.
pub open spec fn youtube_handles(url: Seq<char>) -> bool {
    contains(url, "youtube.com/channel/"@) || contains(url, "youtube.com/@"@)
        || contains(url, "youtube.com/c/"@) || contains(url, "youtube.com/user/"@)
}

/// Whether a Fediverse profile URL: `/@user` after the host, on no YouTube domain.
pub open spec fn mastodon_handles(url: Seq<char>) -> bool {
    !contains(url, "youtube.com"@) && !contains(url, "youtu.be"@)
        && first_group("https?://[^/]+/@([^/]+)"@, url) is Some
}

pub open spec fn blogger_handles(url: Seq<char>) -> bool {
    contains(url, ".blogspot.com"@)
}

/// Whether `kind` takes `url`: `Some` when that is known without the network;
/// `None` when the site must be asked whether it serves the WordPress REST API.
pub open spec fn handles(kind: SourceType, url: Seq<char>) -> Option<bool> {
    match kind {
        SourceType::YouTube => Some(youtube_handles(url)),
        SourceType::Mastodon => Some(mastodon_handles(url)),
        SourceType::Blogger => Some(blogger_handles(url)),
        SourceType::WordPress => if contains(url, "wordpress.com"@) {
            Some(true)
        } else if parsed_url(url) is Err {
            Some(false)
        } else {
            None
        },
        SourceType::RssAtom => Some(true),
    }
}

/// Whether a strategy takes a URL.
#[derive(Debug, Clone)]
pub enum Handling {
    Yes,
    No,
    /// Yes exactly when a HEAD request to this URL succeeds, or else a GET does.
    AskSite(String),
}

/// Whether `kind` takes `url`, as far as that is known without the network.
pub fn can_handle(kind: SourceType, url: &str) -> (r: Handling)
    ensures
        match handles(kind, url@) {
            Some(true) => r is Yes,
            Some(false) => r is No,
            None => parsed_url(url@) matches Ok(p) && (r matches Handling::AskSite(u) && u@ == wp_json_of(p)),
        },
{
    let yes = match kind {
        SourceType::YouTube => YouTubeSource::new().can_handle(url),
        SourceType::Mastodon => MastodonSource::new().can_handle(url),
        SourceType::Blogger => BloggerSource::new().can_handle(url),
        SourceType::WordPress => {
            if str_contains(url, "wordpress.com") {
                true
            } else {
                return match wp_json_url(url) {
                    Some(u) => Handling::AskSite(u),
                    None => Handling::No,
                };
            }
        },
        SourceType::RssAtom => true,
    };
    if yes { Handling::Yes } else { Handling::No }
}

/// The generic RSS/Atom/JSON strategy: takes any URL, as the last resort.
pub struct RssAtomSource {}

impl RssAtomSource {
    pub fn new() -> Self {
        RssAtomSource {}
    }

    pub fn source_type(&self) -> (r: SourceType)
        ensures
            r == SourceType::RssAtom,
    {
        SourceType::RssAtom
    }

    pub fn can_handle(&self, url: &str) -> (r: bool)
        ensures
            r,
    {
        true
    }
}

/// The YouTube strategy.
pub struct YouTubeSource {}

/// The channel-page tab suffixes that validation strips, in the order tried.
pub open spec fn tab_suffix(i: int) -> Seq<char> {
    if i == 0 { "/videos"@ }
    else if i == 1 { "/shorts"@ }
    else if i == 2 { "/streams"@ }
    else if i == 3 { "/playlists"@ }
    else if i == 4 { "/community"@ }
    else if i == 5 { "/channels"@ }
    else if i == 6 { "/about"@ }
    else { "/featured"@ }
}

pub const TAB_SUFFIXES: usize = 8;

/// `url` without its tab suffix: the first of [`tab_suffix`] from `i` on that ends it.
pub open spec fn strip_tab_from(url: Seq<char>, i: int) -> Seq<char>
    decreases TAB_SUFFIXES - i,
{
    if i >= TAB_SUFFIXES {
        url
    } else if ends_with(url, tab_suffix(i)) {
        url.subrange(0, url.len() - tab_suffix(i).len())
    } else {
        strip_tab_from(url, i + 1)
    }
}

fn tab_suffix_at(i: usize) -> (r: &'static str)
    requires
        i < TAB_SUFFIXES,
    ensures
        r@ == tab_suffix(i as int),
{
    if i == 0 { "/videos" }
    else if i == 1 { "/shorts" }
    else if i == 2 { "/streams" }
    else if i == 3 { "/playlists" }
    else if i == 4 { "/community" }
    else if i == 5 { "/channels" }
    else if i == 6 { "/about" }
    else { "/featured" }
}

/// Where the channel id of a YouTube URL comes from.
#[derive(Debug, Clone)]
pub enum ChannelLookup {
    /// Stated in the URL itself.
    Id(String),
    /// To be read off the channel page at this URL.
    Page(String),
}

/// The pattern of a channel id in a channel URL.
pub open spec fn channel_url_pattern() -> Seq<char> {
    "youtube\\.com/channel/(UC[\\w-]{22})"@
}

impl YouTubeSource {
    pub fn new() -> Self {
        YouTubeSource {}
    }

    pub fn source_type(&self) -> (r: SourceType)
        ensures
            r == SourceType::YouTube,
    {
        SourceType::YouTube
    }

    pub fn can_handle(&self, url: &str) -> (r: bool)
        ensures
            r == youtube_handles(url@),
    {
        str_contains(url, "youtube.com/channel/") || str_contains(url, "youtube.com/@")
            || str_contains(url, "youtube.com/c/") || str_contains(url, "youtube.com/user/")
    }

    /// `url` without a trailing tab path such as `/videos`; at most one is stripped.
    pub fn normalize_channel_url(&self, url: &str) -> (r: String)
        ensures
            r@ == strip_tab_from(url@, 0),
    {
        let mut i: usize = 0;
        while i < TAB_SUFFIXES
            invariant
                i <= TAB_SUFFIXES,
                strip_tab_from(url@, 0) == strip_tab_from(url@, i as int),
            decreases TAB_SUFFIXES - i,
        {
            let suffix = tab_suffix_at(i);
            if str_ends_with(url, suffix) {
                let n = url.unicode_len();
                let m = suffix.unicode_len();
                return String::from_str(url.substring_char(0, n - m));
            }
            i = i + 1;
        }
        String::from_str(url)
    }

    /// The feed of a channel.
    pub fn build_feed_url(&self, channel_id: &str) -> (r: String)
        ensures
            r@ == "https://www.youtube.com/feeds/videos.xml?channel_id="@ + channel_id@,
    {
        concat2("https://www.youtube.com/feeds/videos.xml?channel_id=", channel_id)
    }

    /// The channel id stated in `url`, or else the page to read it from when
    /// `url` names a handle, custom or legacy user path.
    pub fn extract_channel_id(&self, url: &str) -> (r: Result<ChannelLookup, FeederError>)
        ensures
            match first_group(channel_url_pattern(), url@) {
                Some(id) => r matches Ok(ChannelLookup::Id(s)) && s@ == id,
                None => if contains(url@, "/@"@) || contains(url@, "/c/"@) || contains(url@, "/user/"@) {
                    r matches Ok(ChannelLookup::Page(p)) && p@ == url@
                } else {
                    r matches Err(e) && (e matches FeederError::InvalidUrl(m)
                        && m@ == "Could not extract YouTube channel ID from URL"@)
                },
            },
    {
        match capture_group1("youtube\\.com/channel/(UC[\\w-]{22})", url) {
            Some(id) => Ok(ChannelLookup::Id(id)),
            None => {
                if str_contains(url, "/@") || str_contains(url, "/c/") || str_contains(url, "/user/") {
                    Ok(ChannelLookup::Page(String::from_str(url)))
                } else {
                    Err(FeederError::InvalidUrl(String::from_str("Could not extract YouTube channel ID from URL")))
                }
            },
        }
    }
}

/// The Mastodon / Fediverse strategy.
pub struct MastodonSource {}

impl MastodonSource {
    pub fn new() -> Self {
        MastodonSource {}
    }

    pub fn source_type(&self) -> (r: SourceType)
        ensures
            r == SourceType::Mastodon,
    {
        SourceType::Mastodon
    }

    pub fn can_handle(&self, url: &str) -> (r: bool)
        ensures
            r == mastodon_handles(url@),
    {
        if str_contains(url, "youtube.com") || str_contains(url, "youtu.be") {
            return false;
        }
        capture_group1("https?://[^/]+/@([^/]+)", url).is_some()
    }

    /// The instance host and the user name of a profile URL `https://<host>/@<user>`.
    pub fn extract_user_info(&self, url: &str) -> (r: Result<(String, String), FeederError>)
        ensures
            match parsed_url(url@) {
                Err(e) => r matches Err(x) && is_invalid_url(x, e),
                Ok(p) => match p.host {
                    None => r matches Err(x) && is_invalid_url(x, "Missing host in URL"@),
                    Some(h) => match first_group("^/@([^/]+)"@, p.path) {
                        Some(u) => r matches Ok(pair) && pair.0@ == h && pair.1@ == u,
                        None => r matches Err(x)
                            && is_invalid_url(x, "Could not extract Mastodon username from URL"@),
                    },
                },
            },
    {
        let p = match parse_url(url) {
            Ok(p) => p,
            Err(e) => {
                return Err(FeederError::InvalidUrl(e));
            },
        };
        let host = match p.host {
            Some(h) => h,
            None => {
                return Err(FeederError::InvalidUrl(String::from_str("Missing host in URL")));
            },
        };
        match capture_group1("^/@([^/]+)", p.path.as_str()) {
            Some(user) => Ok((host, user)),
            None => Err(FeederError::InvalidUrl(String::from_str("Could not extract Mastodon username from URL"))),
        }
    }

    /// The RSS feed of a user: `https://<instance>/users/<username>.rss`.
    pub fn build_feed_url(&self, instance: &str, username: &str) -> (r: String)
        ensures
            r@ == "https://"@ + instance@ + "/users/"@ + username@ + ".rss"@,
    {
        let a = concat3("https://", instance, "/users/");
        concat3(a.as_str(), username, ".rss")
    }
}

/// The WordPress strategy.
pub struct WordPressSource {}

impl WordPressSource {
    pub fn new() -> Self {
        WordPressSource {}
    }

    pub fn source_type(&self) -> (r: SourceType)
        ensures
            r == SourceType::WordPress,
    {
        SourceType::WordPress
    }

    /// Whether the strategy takes `url`: WordPress.com URLs outright, any
    /// other URL exactly when its site serves the WordPress REST API.
    pub fn can_handle(&self, url: &str) -> (r: Handling)
        ensures
            match handles(SourceType::WordPress, url@) {
                Some(true) => r is Yes,
                Some(false) => r is No,
                None => parsed_url(url@) matches Ok(p) && (r matches Handling::AskSite(u) && u@ == wp_json_of(p)),
            },
    {
        can_handle(SourceType::WordPress, url)
    }

    /// The feed of a WordPress site: `scheme://host/feed/`. Fails like [`origin`].
    pub fn build_feed_url(&self, url: &str) -> (r: Result<String, FeederError>)
        ensures
            match parsed_url(url@) {
                Err(e) => r matches Err(x) && is_invalid_url(x, e),
                Ok(p) => match p.host {
                    None => r matches Err(x) && is_invalid_url(x, "Missing host"@),
                    Some(h) => r matches Ok(o) && o@ == p.scheme + "://"@ + h + "/feed/"@,
                },
            },
    {
        let base = origin(url)?;
        Ok(concat2(base.as_str(), "/feed/"))
    }
}

/// The Blogger strategy.
pub struct BloggerSource {}

impl BloggerSource {
    pub fn new() -> Self {
        BloggerSource {}
    }

    pub fn source_type(&self) -> (r: SourceType)
        ensures
            r == SourceType::Blogger,
    {
        SourceType::Blogger
    }

    pub fn can_handle(&self, url: &str) -> (r: bool)
        ensures
            r == blogger_handles(url@),
    {
        str_contains(url, ".blogspot.com")
    }

    /// The Atom feed of a Blogger blog: `https://<host>/feeds/posts/default`.
    pub fn build_feed_url(&self, url: &str) -> (r: Result<String, FeederError>)
        ensures
            match parsed_url(url@) {
                Err(e) => r matches Err(x) && is_invalid_url(x, e),
                Ok(p) => match p.host {
                    None => r matches Err(x) && is_invalid_url(x, "Missing host"@),
                    Some(h) => r matches Ok(o) && o@ == "https://"@ + h + "/feeds/posts/default"@,
                },
            },
    {
        let host = host_of(url)?;
        Ok(concat3("https://", host.as_str(), "/feeds/posts/default"))
    }
}

/// The strategies in the order the registry tries them.
pub open spec fn default_order() -> Seq<SourceType> {
    seq![SourceType::YouTube, SourceType::Mastodon, SourceType::Blogger, SourceType::WordPress, SourceType::RssAtom]
}

/// The first index from `start` on whose strategy does not refuse `url`
/// outright; the length of `sources` when there is none.
pub open spec fn first_candidate(sources: Seq<SourceType>, url: Seq<char>, start: int) -> int
    decreases sources.len() - start,
{
    if start < 0 || start >= sources.len() {
        sources.len() as int
    } else if handles(sources[start], url) == Some(false) {
        first_candidate(sources, url, start + 1)
    } else {
        start
    }
}

/// What detection found.
#[derive(Debug, Clone)]
pub enum Detection {
    Found(SourceType),
    /// The strategy at `index` takes the URL exactly when the site answers
    /// `probe_url` with success; otherwise look on from `index + 1`.
    AskSite { index: usize, probe_url: String },
    /// No strategy takes the URL.
    Unsupported,
}

/// The ordered set of strategies.
pub struct SourceRegistry {
    pub sources: Vec<SourceType>,
}

impl SourceRegistry {
    /// YouTube, Mastodon, Blogger, WordPress, and the generic fallback last.
    pub fn new() -> (r: Self)
        ensures
            r.sources@ == default_order(),
    {
        let mut sources: Vec<SourceType> = Vec::new();
        sources.push(SourceType::YouTube);
        sources.push(SourceType::Mastodon);
        sources.push(SourceType::Blogger);
        sources.push(SourceType::WordPress);
        sources.push(SourceType::RssAtom);
        assert(sources@ =~= default_order());
        SourceRegistry { sources }
    }

    /// Adds a strategy after all the others.
    pub fn register(&mut self, kind: SourceType)
        ensures
            final(self).sources@ == old(self).sources@.push(kind),
    {
        self.sources.push(kind);
    }

    pub open spec fn detection_from(&self, url: Seq<char>, start: int, r: Detection) -> bool {
        let i = first_candidate(self.sources@, url, start);
        if i >= self.sources@.len() {
            r is Unsupported
        } else if handles(self.sources@[i], url) == Some(true) {
            r == Detection::Found(self.sources@[i])
        } else {
            parsed_url(url) matches Ok(p)
                && (r matches Detection::AskSite { index, probe_url } && index == i && probe_url@ == wp_json_of(p))
        }
    }

    /// The first strategy from `start` on that takes `url`, or the site
    /// question that decides the next one.
    pub fn find_from(&self, url: &str, start: usize) -> (r: Detection)
        ensures
            self.detection_from(url@, start as int, r),
    {
        let n = self.sources.len();
        let mut i = start;
        while i < n
            invariant
                n == self.sources@.len(),
                start <= i,
                first_candidate(self.sources@, url@, start as int) == first_candidate(self.sources@, url@, i as int),
            decreases n - i,
        {
            match can_handle(self.sources[i], url) {
                Handling::Yes => {
                    return Detection::Found(self.sources[i]);
                },
                Handling::AskSite(u) => {
                    return Detection::AskSite { index: i, probe_url: u };
                },
                Handling::No => {},
            }
            i = i + 1;
        }
        Detection::Unsupported
    }

    /// The strategy for `url`, or the site question that decides it.
    pub fn find_source(&self, url: &str) -> (r: Detection)
        ensures
            self.detection_from(url@, 0, r),
    {
        self.find_from(url, 0)
    }

    /// Continues detection with the site's answer to an [`Detection::AskSite`] question.
    pub fn on_site_answer(&self, url: &str, index: usize, accepted: bool) -> (r: Detection)
        requires
            index < self.sources@.len(),
        ensures
            accepted ==> r == Detection::Found(self.sources@[index as int]),
            !accepted ==> self.detection_from(url@, index + 1, r),
    {
        let n = self.sources.len();
        if accepted || index + 1 > n {
            Detection::Found(self.sources[index])
        } else {
            self.find_from(url, index + 1)
        }
    }
}

impl SourceRegistry {
    /// The strategy that fetches `feed`: the one of its stored kind, never
    /// re-detected from its URL; an unsupported-source error naming the kind
    /// when none is registered.
    pub fn fetch_strategy(&self, feed: &Feed) -> (r: Result<SourceType, FeederError>)
        ensures
            (exists|i: int| 0 <= i < self.sources@.len() && self.sources@[i] == feed.source_type)
                <==> r is Ok,
            r matches Ok(k) ==> k == feed.source_type,
            r matches Err(e) ==> (e matches FeederError::UnsupportedSource(m) && m@ == feed.source_type.name()),
    {
        let mut i: usize = 0;
        while i < self.sources.len()
            invariant
                i <= self.sources@.len(),
                forall|j: int| 0 <= j < i ==> self.sources@[j] != feed.source_type,
            decreases self.sources@.len() - i,
        {
            if self.sources[i] == feed.source_type {
                return Ok(self.sources[i]);
            }
            i = i + 1;
        }
        Err(FeederError::UnsupportedSource(String::from_str(feed.source_type.as_str())))
    }

    /// The articles of `feed` in `body`, the document fetched from its feed
    /// URL, read by the strategy of its stored kind.
    pub fn fetch_articles(&self, feed: &Feed, body: &[u8]) -> (r: Result<Vec<Article>, FeederError>)
        ensures
            !(exists|i: int| 0 <= i < self.sources@.len() && self.sources@[i] == feed.source_type)
                ==> (r matches Err(e) && (e matches FeederError::UnsupportedSource(m) && m@ == feed.source_type.name())),
            (exists|i: int| 0 <= i < self.sources@.len() && self.sources@[i] == feed.source_type) ==> match parsed_feed(body@) {
                None => r matches Err(e) && e is FeedParse,
                Some(s) => r matches Ok(v) && v@.len() == s.entries.len()
                    && exists|d: FeedDoc| Some(d.shape()) == parsed_feed(body@)
                    && v@.len() == d.entries@.len()
                    && forall|i: int| 0 <= i < v@.len() ==> (if feed.source_type == SourceType::Mastodon {
                        post_article(d.entries@[i], #[trigger] v@[i])
                    } else {
                        entry_article(d.entries@[i], v@[i])
                    }),
            },
    {
        let kind = self.fetch_strategy(feed)?;
        articles_from_body(kind, body)
    }
}

proof fn lemma_contains_longer(s: Seq<char>, p: Seq<char>, q: Seq<char>)
    requires
        contains(s, p + q),
    ensures
        contains(s, p),
{
    let i = choose|i: int| crate::text::occurs_at(s, p + q, i);
    assert(s.subrange(i, i + p.len()) =~= s.subrange(i, i + (p + q).len()).subrange(0, p.len() as int));
    assert(s.subrange(i, i + p.len()) =~= (p + q).subrange(0, p.len() as int));
    assert((p + q).subrange(0, p.len() as int) =~= p);
    assert(crate::text::occurs_at(s, p, i));
}

/// Detection order: with the default strategies, a URL that YouTube takes is
/// detected as YouTube, though it may have the `/@` shape of a Fediverse
/// profile; a URL that the Mastodon strategy takes is never a YouTube URL and
/// is detected as Mastodon, never as the generic fallback.
pub proof fn lemma_registry_priority(url: Seq<char>)
    ensures
        youtube_handles(url) ==> first_candidate(default_order(), url, 0) == 0
            && handles(default_order()[0], url) == Some(true)
            && default_order()[0] == SourceType::YouTube,
        mastodon_handles(url) ==> !youtube_handles(url)
            && first_candidate(default_order(), url, 0) == 1
            && handles(default_order()[1], url) == Some(true)
            && default_order()[1] == SourceType::Mastodon,
{
    reveal_strlit("youtube.com");
    reveal_strlit("youtube.com/channel/");
    reveal_strlit("youtube.com/@");
    reveal_strlit("youtube.com/c/");
    reveal_strlit("youtube.com/user/");
    reveal_strlit("/channel/");
    reveal_strlit("/@");
    reveal_strlit("/c/");
    reveal_strlit("/user/");
    if mastodon_handles(url) && youtube_handles(url) {
        let y = "youtube.com"@;
        if contains(url, "youtube.com/channel/"@) {
            assert("youtube.com/channel/"@ =~= y + "/channel/"@);
            lemma_contains_longer(url, y, "/channel/"@);
        } else if contains(url, "youtube.com/@"@) {
            assert("youtube.com/@"@ =~= y + "/@"@);
            lemma_contains_longer(url, y, "/@"@);
        } else if contains(url, "youtube.com/c/"@) {
            assert("youtube.com/c/"@ =~= y + "/c/"@);
            lemma_contains_longer(url, y, "/c/"@);
        } else {
            assert("youtube.com/user/"@ =~= y + "/user/"@);
            lemma_contains_longer(url, y, "/user/"@);
        }
    }
    if mastodon_handles(url) {
        assert(first_candidate(default_order(), url, 0) == first_candidate(default_order(), url, 1));
    }
}

} // verus!
