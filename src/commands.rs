//! The commands of the program, its configuration, and how a run treats
//! delivery and commits.

use vstd::prelude::*;
use vstd::string::*;
use crate::domain::{Article, ArticleView, Feed, FeedMetadata, article_views};

verus! {

/// Settings of the notification channel and the database.
#[derive(Debug, Clone)]
pub struct Config {
    pub notebrook_url: String,
    pub notebrook_token: String,
    pub notebrook_channel: String,
    pub db_path: String,
}

/// What the program is asked to do.
#[derive(Debug, Clone)]
pub enum Commands {
    /// Add a feed URL.
    Add { url: String },
    /// Remove a feed, chosen interactively.
    Remove,
    /// List all feeds.
    List,
    /// Import feeds from an OPML file.
    Import { path: String },
    /// Export feeds as OPML, to a file or to standard output.
    Export { output: Option<String> },
    /// Fetch all feeds and notify new articles.
    Run { dry_run: bool, skip_notify: bool },
}

#[derive(Debug, Clone)]
pub struct Cli {
    pub command: Commands,
}

/// How a run treats unseen articles.
#[derive(Debug, Clone, Copy, PartialEq, Eq, Structural)]
pub enum RunMode {
    /// Deliver each article, and record it as notified once delivered.
    Deliver,
    /// Show each notification's text; deliver nothing, record nothing.
    DryRun,
    /// Deliver nothing, but record every article as notified.
    SkipNotify,
}

/// The mode of a run; skipping notifications takes precedence over a dry run.
pub fn run_mode(dry_run: bool, skip_notify: bool) -> (r: RunMode)
    ensures
        skip_notify ==> r == RunMode::SkipNotify,
        !skip_notify && dry_run ==> r == RunMode::DryRun,
        !skip_notify && !dry_run ==> r == RunMode::Deliver,
{
    if skip_notify {
        RunMode::SkipNotify
    } else if dry_run {
        RunMode::DryRun
    } else {
        RunMode::Deliver
    }
}

/// Whether a run in `mode` records the article at index `i` as notified,
/// given which articles were delivered: when delivering, exactly those
/// delivered; in a dry run, none; when skipping notifications, all.
pub open spec fn commits(mode: RunMode, delivered: Seq<bool>, i: int) -> bool {
    match mode {
        RunMode::Deliver => 0 <= i < delivered.len() && delivered[i],
        RunMode::DryRun => false,
        RunMode::SkipNotify => true,
    }
}

/// The articles that `commits` selects, in order.
pub open spec fn committed(mode: RunMode, articles: Seq<ArticleView>, delivered: Seq<bool>) -> Seq<ArticleView>
    decreases articles.len(),
{
    if articles.len() == 0 {
        Seq::empty()
    } else {
        let rest = committed(mode, articles.drop_last(), delivered);
        if commits(mode, delivered, articles.len() - 1) { rest.push(articles.last()) } else { rest }
    }
}

/// The articles of a feed to record as notified after a run in `mode`;
/// `delivered[i]` says whether article `i` reached the channel.
pub fn articles_to_commit(mode: RunMode, articles: &Vec<Article>, delivered: &Vec<bool>) -> (r: Vec<Article>)
    ensures
        article_views(r@) == committed(mode, article_views(articles@), delivered@),
{
    let mut r: Vec<Article> = Vec::new();
    let mut i: usize = 0;
    while i < articles.len()
        invariant
            i <= articles@.len(),
            article_views(r@) == committed(mode, article_views(articles@.subrange(0, i as int)), delivered@),
        decreases articles@.len() - i,
    {
        proof {
            let pre = article_views(articles@.subrange(0, i + 1));
            assert(pre.drop_last() =~= article_views(articles@.subrange(0, i as int)));
            assert(pre.last() == articles@[i as int]@);
        }
        let keep = match mode {
            RunMode::Deliver => i < delivered.len() && delivered[i],
            RunMode::DryRun => false,
            RunMode::SkipNotify => true,
        };
        if keep {
            let a = articles[i].duplicate();
            r.push(a);
            proof {
                assert(article_views(r@) =~= article_views(r@.drop_last()).push(a@));
            }
        }
        i = i + 1;
    }
    assert(articles@.subrange(0, articles@.len() as int) =~= articles@);
    r
}

/// The feed to persist for a URL that validated to `metadata`.
pub fn feed_from_metadata(url: &str, metadata: FeedMetadata) -> (r: Feed)
    ensures
        r.id is None,
        r.url@ == url@,
        r.feed_url == metadata.feed_url,
        r.title == metadata.title,
        r.feed_type == metadata.feed_type,
        r.source_type == metadata.source_type,
        r.created_at is None,
{
    Feed::new(String::from_str(url), metadata.feed_url, metadata.title, metadata.feed_type, metadata.source_type)
}

/// What an OPML import did with each URL.
pub struct ImportResult {
    pub added: Vec<Feed>,
    /// Each URL that failed, with the reason.
    pub invalid: Vec<(String, String)>,
    pub duplicates: Vec<String>,
}

} // verus!
