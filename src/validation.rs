//! Validation of a URL for a source strategy, as a state machine: the caller
//! performs each network request that a step names and hands back what came
//! of it. Every strategy ends in feed discovery: the endpoint as given, then
//! well-known feed paths under its origin.

use vstd::prelude::*;
use vstd::string::*;
use crate::text::{contains, concat2, concat3, opt_view};
use crate::domain::{FeedMetadata, SourceType};
use crate::errors::FeederError;
use crate::urls::{parsed_url, origin};
use crate::patterns::first_group;
use crate::sources::{
    channel_url_pattern, strip_tab_from, ChannelLookup, YouTubeSource, MastodonSource,
    WordPressSource, BloggerSource,
};
use crate::feed_doc::{FeedShape, parsed_feed, read_feed, metadata_of, feed_type_of};
use crate::html::{page_channel_id, channel_id_from_page};

verus! {

/// How many well-known feed paths discovery tries.
pub const FEED_PATTERN_COUNT: usize = 9;

/// The well-known feed paths, in the order discovery tries them.
pub open spec fn feed_pattern_spec(i: int) -> Seq<char> {
    if i == 0 { "/feed/"@ }
    else if i == 1 { "/index.xml"@ }
    else if i == 2 { "/atom.xml"@ }
    else if i == 3 { "/rss.xml"@ }
    else if i == 4 { "/feed.xml"@ }
    else if i == 5 { "/rss"@ }
    else if i == 6 { "/feed"@ }
    else if i == 7 { "/feeds/posts/default"@ }
    else { "/.rss"@ }
}

pub fn feed_pattern(i: usize) -> (r: &'static str)
    requires
        i < FEED_PATTERN_COUNT,
    ensures
        r@ == feed_pattern_spec(i as int),
{
    if i == 0 { "/feed/" }
    else if i == 1 { "/index.xml" }
    else if i == 2 { "/atom.xml" }
    else if i == 3 { "/rss.xml" }
    else if i == 4 { "/feed.xml" }
    else if i == 5 { "/rss" }
    else if i == 6 { "/feed" }
    else if i == 7 { "/feeds/posts/default" }
    else { "/.rss" }
}

/// All well-known feed paths, in order.
pub fn feed_patterns() -> (r: Vec<&'static str>)
    ensures
        r@.len() == FEED_PATTERN_COUNT,
        forall|i: int| 0 <= i < FEED_PATTERN_COUNT ==> #[trigger] r@[i]@ == feed_pattern_spec(i),
{
    let mut r: Vec<&'static str> = Vec::new();
    let mut i: usize = 0;
    while i < FEED_PATTERN_COUNT
        invariant
            i <= FEED_PATTERN_COUNT,
            r@.len() == i,
            forall|j: int| 0 <= j < i ==> #[trigger] r@[j]@ == feed_pattern_spec(j),
        decreases FEED_PATTERN_COUNT - i,
    {
        r.push(feed_pattern(i));
        i = i + 1;
    }
    r
}

pub open spec fn digit_char(d: nat) -> char {
    if d == 0 { '0' } else if d == 1 { '1' } else if d == 2 { '2' } else if d == 3 { '3' }
    else if d == 4 { '4' } else if d == 5 { '5' } else if d == 6 { '6' } else if d == 7 { '7' }
    else if d == 8 { '8' } else { '9' }
}

/// The decimal digits of `n`, without leading zeros.
pub open spec fn decimal(n: nat) -> Seq<char>
    decreases n,
{
    if n < 10 { seq![digit_char(n)] } else { decimal(n / 10).push(digit_char(n % 10)) }
}

fn digit_str(d: u16) -> (r: &'static str)
    requires
        d < 10,
    ensures
        r@ == seq![digit_char(d as nat)],
{
    proof {
        reveal_strlit("0"); reveal_strlit("1"); reveal_strlit("2"); reveal_strlit("3");
        reveal_strlit("4"); reveal_strlit("5"); reveal_strlit("6"); reveal_strlit("7");
        reveal_strlit("8"); reveal_strlit("9");
    }
    let r = if d == 0 { "0" } else if d == 1 { "1" } else if d == 2 { "2" } else if d == 3 { "3" }
        else if d == 4 { "4" } else if d == 5 { "5" } else if d == 6 { "6" } else if d == 7 { "7" }
        else if d == 8 { "8" } else { "9" };
    assert(r@ =~= seq![digit_char(d as nat)]);
    r
}

/// `n` in decimal.
pub fn decimal_string(n: u16) -> (r: String)
    ensures
        r@ == decimal(n as nat),
    decreases n,
{
    if n < 10 {
        String::from_str(digit_str(n))
    } else {
        let mut r = decimal_string(n / 10);
        r.append(digit_str(n % 10));
        assert(r@ =~= decimal((n / 10) as nat).push(digit_char((n % 10) as nat)));
        r
    }
}

/// `scheme://host` of a URL, when it parses and has a host.
pub open spec fn origin_of(url: Seq<char>) -> Option<Seq<char>> {
    match parsed_url(url) {
        Ok(p) => match p.host {
            Some(h) => Some(p.scheme + "://"@ + h),
            None => None,
        },
        Err(_) => None,
    }
}

/// The endpoint that a strategy other than YouTube validates for `url`.
pub open spec fn endpoint_for(kind: SourceType, url: Seq<char>) -> Option<Seq<char>> {
    match kind {
        SourceType::RssAtom => Some(url),
        SourceType::Mastodon => match parsed_url(url) {
            Ok(p) => match p.host {
                Some(h) => match first_group("^/@([^/]+)"@, p.path) {
                    Some(u) => Some("https://"@ + h + "/users/"@ + u + ".rss"@),
                    None => None,
                },
                None => None,
            },
            Err(_) => None,
        },
        SourceType::WordPress => match origin_of(url) {
            Some(o) => Some(o + "/feed/"@),
            None => None,
        },
        SourceType::Blogger => match parsed_url(url) {
            Ok(p) => match p.host {
                Some(h) => Some("https://"@ + h + "/feeds/posts/default"@),
                None => None,
            },
            Err(_) => None,
        },
        SourceType::YouTube => None,
    }
}

/// The feed of a YouTube channel.
pub open spec fn channel_feed(id: Seq<char>) -> Seq<char> {
    "https://www.youtube.com/feeds/videos.xml?channel_id="@ + id
}

/// What a fetched body parses to, when it arrived and parses.
pub open spec fn fetched(body: Result<Vec<u8>, FeederError>) -> Option<FeedShape> {
    match body {
        Ok(b) => parsed_feed(b@),
        Err(_) => None,
    }
}

/// `m` reports the feed of shape `s`, found at `url`, for strategy `kind`.
pub open spec fn reports(m: FeedMetadata, s: FeedShape, url: Seq<char>, kind: SourceType) -> bool {
    &&& m.title@ == (match s.title {
        Some(t) => t,
        None => "Untitled Feed"@,
    })
    &&& m.feed_type == feed_type_of(s.kind)
    &&& m.feed_url@ == url
    &&& m.source_type == kind
    &&& opt_view(m.description) == s.description
}

/// Where validation stands.
#[derive(Debug, Clone, Copy, PartialEq, Eq, Structural)]
pub enum Stage {
    /// Waiting for the YouTube channel page.
    ChannelPage,
    /// Waiting for the status of the YouTube channel feed.
    FeedStatus,
    /// Waiting for the endpoint itself.
    Direct,
    /// Waiting to hear whether the well-known path at this index exists.
    Probing(usize),
    /// Waiting for the document at the well-known path at this index.
    Fetching(usize),
    Finished,
}

/// What the caller does next.
#[derive(Debug)]
pub enum ValidationStep {
    /// GET this page and hand its text to `on_page`.
    FetchPage(String),
    /// GET this URL and hand its HTTP status to `on_status`.
    CheckStatus(String),
    /// GET this URL and hand its body to `on_fetch`.
    Fetch(String),
    /// HEAD this URL and hand whether its status was a success to `on_probe`.
    Probe(String),
    /// Validation is over.
    Done(Result<FeedMetadata, FeederError>),
}

/// One URL under validation for one strategy.
pub struct Validation {
    pub kind: SourceType,
    /// The endpoint to validate, once known.
    pub target: String,
    /// `scheme://host` of the endpoint, once discovery probes.
    pub origin: String,
    pub stage: Stage,
    /// The error that discovery reports when no well-known path yields a feed.
    pub last_error: FeederError,
}

impl Validation {
    pub open spec fn wf(&self) -> bool {
        match self.stage {
            Stage::Probing(i) => i < FEED_PATTERN_COUNT,
            Stage::Fetching(i) => i < FEED_PATTERN_COUNT,
            _ => true,
        }
    }

    /// The well-known URL at index `i` under the endpoint's origin.
    pub open spec fn candidate(&self, i: int) -> Seq<char> {
        self.origin@ + feed_pattern_spec(i)
    }

    /// After a miss at index `i - 1`: the probe at `i`, or the end of discovery.
    pub open spec fn moved_on(&self, step: ValidationStep, i: int) -> bool {
        if i < FEED_PATTERN_COUNT {
            self.stage == Stage::Probing(i as usize)
                && (step matches ValidationStep::Probe(u) && u@ == self.candidate(i))
        } else {
            self.stage == Stage::Finished
                && (step matches ValidationStep::Done(Err(e)) && e.prefix() == self.last_error.prefix()
                && e.detail() == self.last_error.detail())
        }
    }

    fn discover(kind: SourceType, target: String) -> (r: (Validation, ValidationStep))
        ensures
            r.0.wf(),
            r.0.kind == kind,
            r.0.target == target,
            r.0.stage == Stage::Direct,
            r.1 matches ValidationStep::Fetch(u) && u@ == target@,
            r.0.last_error matches FeederError::FeedParse(m) && m@ == "No valid feed found"@,
    {
        let step = ValidationStep::Fetch(target.clone());
        let v = Validation {
            kind,
            target,
            origin: String::new(),
            stage: Stage::Direct,
            last_error: FeederError::FeedParse(String::from_str("No valid feed found")),
        };
        (v, step)
    }

    fn finish(kind: SourceType, e: FeederError) -> (r: (Validation, ValidationStep))
        ensures
            r.0.wf(),
            r.0.kind == kind,
            r.0.stage == Stage::Finished,
            r.1 == ValidationStep::Done(Err(e)),
    {
        let v = Validation {
            kind,
            target: String::new(),
            origin: String::new(),
            stage: Stage::Finished,
            last_error: FeederError::FeedParse(String::from_str("No valid feed found")),
        };
        (v, ValidationStep::Done(Err(e)))
    }

    /// Starts validating `url` with strategy `kind`.
    ///
    /// YouTube: the URL without its tab suffix must state a channel id, or name
    /// a handle, custom or user path whose page states it; the channel feed is
    /// then checked for existence. Every other strategy starts discovery at
    /// its endpoint ([`endpoint_for`]), or fails with an invalid-URL error
    /// when the URL yields none.
    pub fn start(kind: SourceType, url: &str) -> (r: (Validation, ValidationStep))
        ensures
            r.0.wf(),
            r.0.kind == kind,
            kind != SourceType::YouTube ==> match endpoint_for(kind, url@) {
                Some(t) => r.0.stage == Stage::Direct && r.0.target@ == t
                    && (r.1 matches ValidationStep::Fetch(u) && u@ == t)
                    && (r.0.last_error matches FeederError::FeedParse(m) && m@ == "No valid feed found"@),
                None => r.0.stage == Stage::Finished
                    && (r.1 matches ValidationStep::Done(Err(e)) && e is InvalidUrl),
            },
            kind == SourceType::YouTube ==> {
                let n = strip_tab_from(url@, 0);
                match first_group(channel_url_pattern(), n) {
                    Some(id) => r.0.stage == Stage::FeedStatus && r.0.target@ == channel_feed(id)
                        && (r.1 matches ValidationStep::CheckStatus(u) && u@ == channel_feed(id)),
                    None => if contains(n, "/@"@) || contains(n, "/c/"@) || contains(n, "/user/"@) {
                        r.0.stage == Stage::ChannelPage
                            && (r.1 matches ValidationStep::FetchPage(u) && u@ == n)
                    } else {
                        r.0.stage == Stage::Finished
                            && (r.1 matches ValidationStep::Done(Err(e)) && e is InvalidUrl)
                    },
                }
            },
    {
        match kind {
            SourceType::RssAtom => Validation::discover(kind, String::from_str(url)),
            SourceType::Mastodon => {
                let source = MastodonSource::new();
                match source.extract_user_info(url) {
                    Ok(pair) => {
                        let target = source.build_feed_url(pair.0.as_str(), pair.1.as_str());
                        Validation::discover(kind, target)
                    },
                    Err(e) => Validation::finish(kind, e),
                }
            },
            SourceType::WordPress => match WordPressSource::new().build_feed_url(url) {
                Ok(target) => Validation::discover(kind, target),
                Err(e) => Validation::finish(kind, e),
            },
            SourceType::Blogger => match BloggerSource::new().build_feed_url(url) {
                Ok(target) => Validation::discover(kind, target),
                Err(e) => Validation::finish(kind, e),
            },
            SourceType::YouTube => {
                let source = YouTubeSource::new();
                let normalized = source.normalize_channel_url(url);
                match source.extract_channel_id(normalized.as_str()) {
                    Ok(ChannelLookup::Id(id)) => {
                        let target = source.build_feed_url(id.as_str());
                        let step = ValidationStep::CheckStatus(target.clone());
                        let v = Validation {
                            kind,
                            target,
                            origin: String::new(),
                            stage: Stage::FeedStatus,
                            last_error: FeederError::FeedParse(String::from_str("No valid feed found")),
                        };
                        (v, step)
                    },
                    Ok(ChannelLookup::Page(page)) => {
                        let v = Validation {
                            kind,
                            target: String::new(),
                            origin: String::new(),
                            stage: Stage::ChannelPage,
                            last_error: FeederError::FeedParse(String::from_str("No valid feed found")),
                        };
                        (v, ValidationStep::FetchPage(page))
                    },
                    Err(e) => Validation::finish(kind, e),
                }
            },
        }
    }

    /// Takes the YouTube channel page: its channel id gives the channel feed,
    /// whose existence is checked next.
    pub fn on_page(&mut self, page: Result<String, FeederError>) -> (step: ValidationStep)
        requires
            old(self).wf(),
            old(self).stage == Stage::ChannelPage,
        ensures
            final(self).wf(),
            final(self).kind == old(self).kind,
            match page {
                Err(e) => final(self).stage == Stage::Finished && step == ValidationStep::Done(Err(e)),
                Ok(html) => match page_channel_id(html@) {
                    Some(id) => final(self).stage == Stage::FeedStatus
                        && final(self).target@ == channel_feed(id)
                        && (step matches ValidationStep::CheckStatus(u) && u@ == channel_feed(id)),
                    None => final(self).stage == Stage::Finished
                        && (step matches ValidationStep::Done(Err(e)) && (e matches FeederError::FeedValidation(m)
                        && m@ == "Could not find channel ID on YouTube page"@)),
                },
            },
    {
        match page {
            Err(e) => {
                self.stage = Stage::Finished;
                ValidationStep::Done(Err(e))
            },
            Ok(html) => match channel_id_from_page(html.as_str()) {
                Ok(id) => {
                    self.target = YouTubeSource::new().build_feed_url(id.as_str());
                    self.stage = Stage::FeedStatus;
                    ValidationStep::CheckStatus(self.target.clone())
                },
                Err(e) => {
                    self.stage = Stage::Finished;
                    ValidationStep::Done(Err(e))
                },
            },
        }
    }

    /// Takes the HTTP status of the YouTube channel feed: a success starts
    /// discovery at the feed; any other status fails validation with a message
    /// that names it, since some channels have their feed switched off.
    pub fn on_status(&mut self, status: Result<u16, FeederError>) -> (step: ValidationStep)
        requires
            old(self).wf(),
            old(self).stage == Stage::FeedStatus,
        ensures
            final(self).wf(),
            final(self).kind == old(self).kind,
            final(self).target == old(self).target,
            match status {
                Err(e) => final(self).stage == Stage::Finished && step == ValidationStep::Done(Err(e)),
                Ok(code) => if 200 <= code < 300 {
                    final(self).stage == Stage::Direct
                        && (step matches ValidationStep::Fetch(u) && u@ == old(self).target@)
                } else {
                    final(self).stage == Stage::Finished
                        && (step matches ValidationStep::Done(Err(e)) && (e matches FeederError::FeedValidation(m)
                        && m@ == "YouTube RSS feed not available for this channel (HTTP "@ + decimal(code as nat)
                            + "). Some channels may not have RSS feeds enabled."@))
                },
            },
    {
        match status {
            Err(e) => {
                self.stage = Stage::Finished;
                ValidationStep::Done(Err(e))
            },
            Ok(code) => {
                if 200 <= code && code < 300 {
                    self.stage = Stage::Direct;
                    self.last_error = FeederError::FeedParse(String::from_str("No valid feed found"));
                    ValidationStep::Fetch(self.target.clone())
                } else {
                    self.stage = Stage::Finished;
                    let code_text = decimal_string(code);
                    let m = concat3(
                        "YouTube RSS feed not available for this channel (HTTP ",
                        code_text.as_str(),
                        "). Some channels may not have RSS feeds enabled.",
                    );
                    ValidationStep::Done(Err(FeederError::FeedValidation(m)))
                }
            },
        }
    }

    /// The probe at index `i`, or the end of discovery with the last error.
    fn move_on(&mut self, i: usize) -> (step: ValidationStep)
        requires
            i <= FEED_PATTERN_COUNT,
        ensures
            final(self).wf(),
            final(self).kind == old(self).kind,
            final(self).target == old(self).target,
            final(self).origin == old(self).origin,
            final(self).last_error == old(self).last_error,
            final(self).moved_on(step, i as int),
    {
        if i < FEED_PATTERN_COUNT {
            self.stage = Stage::Probing(i);
            ValidationStep::Probe(concat2(self.origin.as_str(), feed_pattern(i)))
        } else {
            self.stage = Stage::Finished;
            ValidationStep::Done(Err(self.last_error.duplicate()))
        }
    }

    /// Takes the body fetched for the endpoint or for a well-known path.
    ///
    /// A body that parses as a feed ends validation with its metadata. At
    /// the endpoint, anything else starts the probes under the endpoint's
    /// origin (or fails when it has none). At a well-known path, the error is
    /// kept as the last one and the next path is probed.
    pub fn on_fetch(&mut self, body: Result<Vec<u8>, FeederError>) -> (step: ValidationStep)
        requires
            old(self).wf(),
            old(self).stage == Stage::Direct || old(self).stage is Fetching,
        ensures
            final(self).wf(),
            final(self).kind == old(self).kind,
            final(self).target == old(self).target,
            match fetched(body) {
                Some(s) => final(self).stage == Stage::Finished && (step matches ValidationStep::Done(Ok(m))
                    && reports(m, s, match old(self).stage {
                        Stage::Fetching(i) => old(self).candidate(i as int),
                        _ => old(self).target@,
                    }, old(self).kind)),
                None => match old(self).stage {
                    Stage::Fetching(i) => final(self).origin == old(self).origin
                        && final(self).moved_on(step, i + 1)
                        && (body matches Err(e) ==> final(self).last_error == e)
                        && (body is Ok ==> final(self).last_error is FeedParse),
                    _ => match origin_of(old(self).target@) {
                        Some(o) => final(self).origin@ == o && final(self).last_error == old(self).last_error
                            && final(self).moved_on(step, 0),
                        None => final(self).stage == Stage::Finished
                            && (step matches ValidationStep::Done(Err(e)) && e is InvalidUrl),
                    },
                },
            },
    {
        let at = match self.stage {
            Stage::Fetching(i) => concat2(self.origin.as_str(), feed_pattern(i)),
            _ => self.target.clone(),
        };
        let parsed = match body {
            Ok(b) => read_feed(b.as_slice()),
            Err(e) => Err(e),
        };
        match parsed {
            Ok(doc) => {
                self.stage = Stage::Finished;
                ValidationStep::Done(Ok(metadata_of(&doc, at.as_str(), self.kind)))
            },
            Err(e) => match self.stage {
                Stage::Fetching(i) => {
                    self.last_error = e;
                    self.move_on(i + 1)
                },
                _ => match origin(self.target.as_str()) {
                    Ok(o) => {
                        self.origin = o;
                        self.move_on(0)
                    },
                    Err(e) => {
                        self.stage = Stage::Finished;
                        ValidationStep::Done(Err(e))
                    },
                },
            },
        }
    }

    /// Takes whether the well-known path under probe exists: if so its
    /// document is fetched, else the next path is probed.
    pub fn on_probe(&mut self, exists: bool) -> (step: ValidationStep)
        requires
            old(self).wf(),
            old(self).stage is Probing,
        ensures
            final(self).wf(),
            final(self).kind == old(self).kind,
            final(self).target == old(self).target,
            final(self).origin == old(self).origin,
            final(self).last_error == old(self).last_error,
            old(self).stage matches Stage::Probing(i) && (if exists {
                final(self).stage == Stage::Fetching(i)
                    && (step matches ValidationStep::Fetch(u) && u@ == old(self).candidate(i as int))
            } else {
                final(self).moved_on(step, i + 1)
            }),
    {
        let i = match self.stage {
            Stage::Probing(i) => i,
            _ => 0,
        };
        if exists {
            self.stage = Stage::Fetching(i);
            ValidationStep::Fetch(concat2(self.origin.as_str(), feed_pattern(i)))
        } else {
            self.move_on(i + 1)
        }
    }
}

} // verus!
