//! The per-feed fetch-and-deduplicate pipeline: which fetched articles are
//! new, which records to commit once they were delivered, and the per-feed
//! outcome of a run.

use vstd::prelude::*;
use vstd::string::*;
use crate::text::views;
use crate::domain::{Article, ArticleView, Feed, Notification, key_of, article_views};
use crate::errors::FeederError;

verus! {

/// The cache keys of `articles` in a feed titled `title`.
pub open spec fn keys_of(title: Seq<char>, articles: Seq<ArticleView>) -> Seq<Seq<char>> {
    articles.map_values(|a: ArticleView| key_of(title, a.id))
}

/// The articles whose cache key is in `keep`, in their order.
pub open spec fn kept(title: Seq<char>, articles: Seq<ArticleView>, keep: Set<Seq<char>>) -> Seq<ArticleView>
    decreases articles.len(),
{
    if articles.len() == 0 {
        Seq::empty()
    } else {
        let rest = kept(title, articles.drop_last(), keep);
        if keep.contains(key_of(title, articles.last().id)) {
            rest.push(articles.last())
        } else {
            rest
        }
    }
}

/// The cache key of each article, in order.
pub fn cache_keys(feed_title: &str, articles: &Vec<Article>) -> (r: Vec<String>)
    ensures
        views(r@) == keys_of(feed_title@, article_views(articles@)),
{
    let mut r: Vec<String> = Vec::new();
    let mut i: usize = 0;
    while i < articles.len()
        invariant
            i <= articles@.len(),
            views(r@) =~= keys_of(feed_title@, article_views(articles@.subrange(0, i as int))),
        decreases articles@.len() - i,
    {
        let k = articles[i].cache_key(feed_title);
        r.push(k);
        proof {
            assert(views(r@) =~= views(r@.drop_last()).push(k@));
            assert(article_views(articles@.subrange(0, i + 1))
                =~= article_views(articles@.subrange(0, i as int)).push(articles@[i as int]@));
            assert(keys_of(feed_title@, article_views(articles@.subrange(0, i + 1)))
                =~= keys_of(feed_title@, article_views(articles@.subrange(0, i as int))).push(k@));
        }
        i = i + 1;
    }
    assert(articles@.subrange(0, articles@.len() as int) =~= articles@);
    r
}

/// The articles whose cache key the store reported as not yet notified, in
/// source order.
pub fn select_unnotified(feed_title: &str, articles: &Vec<Article>, unnotified_keys: &Vec<String>) -> (r: Vec<Article>)
    ensures
        article_views(r@) == kept(feed_title@, article_views(articles@), views(unnotified_keys@).to_set()),
{
    let ghost keep = views(unnotified_keys@).to_set();
    let mut r: Vec<Article> = Vec::new();
    let mut i: usize = 0;
    while i < articles.len()
        invariant
            i <= articles@.len(),
            keep == views(unnotified_keys@).to_set(),
            article_views(r@) == kept(feed_title@, article_views(articles@.subrange(0, i as int)), keep),
        decreases articles@.len() - i,
    {
        let k = articles[i].cache_key(feed_title);
        let new = crate::dedup::holds_string(unnotified_keys, &k);
        proof {
            let pre = article_views(articles@.subrange(0, i + 1));
            assert(pre.drop_last() =~= article_views(articles@.subrange(0, i as int)));
            assert(pre.last() == articles@[i as int]@);
        }
        if new {
            let a = articles[i].duplicate();
            r.push(a);
            proof {
                assert(article_views(r@) =~= article_views(r@.drop_last()).push(a@));
            }
        }
        i = i + 1;
    }
    assert(articles@.subrange(0, articles@.len() as int) =~= articles@);
    r
}

/// A record that marks one article of one feed as notified.
#[derive(Debug, Clone)]
pub struct NotifiedRecord {
    pub cache_key: String,
    pub feed_id: i64,
    pub article_title: String,
}

/// The records that mark `articles` of `feed` as notified. A feed that was
/// never persisted has no id to record them under.
pub fn notified_records(feed: &Feed, articles: &Vec<Article>) -> (r: Result<Vec<NotifiedRecord>, FeederError>)
    ensures
        feed.id is None <==> r is Err,
        r matches Err(e) ==> (e matches FeederError::FeedNotFound(m) && m@ == "Feed has no ID"@),
        r matches Ok(v) ==> v@.len() == articles@.len() && forall|i: int| 0 <= i < v@.len() ==> {
            &&& v@[i].cache_key@ == key_of(feed.title@, articles@[i].id@)
            &&& Some(v@[i].feed_id) == feed.id
            &&& v@[i].article_title@ == articles@[i].title@
        },
{
    let feed_id = match feed.id {
        Some(id) => id,
        None => {
            return Err(FeederError::FeedNotFound(String::from_str("Feed has no ID")));
        },
    };
    let mut v: Vec<NotifiedRecord> = Vec::new();
    let mut i: usize = 0;
    while i < articles.len()
        invariant
            i <= articles@.len(),
            feed.id == Some(feed_id),
            v@.len() == i,
            forall|j: int| 0 <= j < i ==> {
                &&& v@[j].cache_key@ == key_of(feed.title@, articles@[j].id@)
                &&& v@[j].feed_id == feed_id
                &&& v@[j].article_title@ == articles@[j].title@
            },
        decreases articles@.len() - i,
    {
        let cache_key = articles[i].cache_key(feed.title.as_str());
        v.push(NotifiedRecord { cache_key, feed_id, article_title: articles[i].title.clone() });
        i = i + 1;
    }
    Ok(v)
}

/// The notification of each article of `feed`, in order.
pub fn create_notifications(feed: &Feed, articles: &Vec<Article>) -> (r: Vec<Notification>)
    ensures
        r@.len() == articles@.len(),
        forall|i: int| 0 <= i < r@.len() ==> {
            &&& r@[i].feed_title@ == feed.title@
            &&& r@[i].article_title@ == articles@[i].title@
            &&& r@[i].text@ == (match articles@[i].content {
                Some(c) => c@,
                None => Seq::<char>::empty(),
            })
            &&& r@[i].links@ == articles@[i].links@
        },
{
    let mut r: Vec<Notification> = Vec::new();
    let mut i: usize = 0;
    while i < articles.len()
        invariant
            i <= articles@.len(),
            r@.len() == i,
            forall|j: int| 0 <= j < i ==> {
                &&& r@[j].feed_title@ == feed.title@
                &&& r@[j].article_title@ == articles@[j].title@
                &&& r@[j].text@ == (match articles@[j].content {
                    Some(c) => c@,
                    None => Seq::<char>::empty(),
                })
                &&& r@[j].links@ == articles@[j].links@
            },
        decreases articles@.len() - i,
    {
        r.push(Notification::from_article(feed, &articles[i]));
        i = i + 1;
    }
    r
}

/// The outcome of fetching one feed during a run.
pub struct FetchResult {
    pub feed: Feed,
    pub total_articles: usize,
    pub new_articles: Vec<Article>,
    pub error: Option<String>,
}

impl FetchResult {
    pub fn success(feed: Feed, total_articles: usize, new_articles: Vec<Article>) -> (r: Self)
        ensures
            r.feed == feed,
            r.total_articles == total_articles,
            r.new_articles == new_articles,
            r.error is None,
    {
        FetchResult { feed, total_articles, new_articles, error: None }
    }

    pub fn error(feed: Feed, error: String) -> (r: Self)
        ensures
            r.feed == feed,
            r.total_articles == 0,
            r.new_articles@.len() == 0,
            r.error == Some(error),
    {
        FetchResult { feed, total_articles: 0, new_articles: Vec::new(), error: Some(error) }
    }

    pub fn has_new_articles(&self) -> (r: bool)
        ensures
            r == (self.new_articles@.len() > 0),
    {
        self.new_articles.len() != 0
    }

    pub fn is_error(&self) -> (r: bool)
        ensures
            r == self.error is Some,
    {
        self.error.is_some()
    }
}

} // verus!
