use feeder::domain::{FeedType, SourceType};
use feeder::errors::FeederError;
use feeder::validation::{feed_patterns, Validation, ValidationStep};

const SAMPLE_RSS: &[u8] = br#"<?xml version="1.0" encoding="UTF-8"?>
<rss version="2.0">
  <channel>
    <title>Site Feed</title>
    <link>https://site/</link>
    <description>A site.</description>
    <item>
      <title>First</title>
      <link>https://site/first</link>
      <guid>https://site/first</guid>
    </item>
  </channel>
</rss>"#;

#[test]
fn test_feed_patterns_are_valid() {
    let patterns = feed_patterns();
    for pattern in &patterns {
        assert!(pattern.starts_with('/'), "Feed pattern '{}' should start with /", pattern);
    }
    assert!(patterns.contains(&"/feed/"), "WordPress pattern /feed/ should be included");
    assert!(patterns.contains(&"/index.xml"), "Hugo pattern /index.xml should be included");
    assert!(patterns.contains(&"/atom.xml"), "Atom pattern /atom.xml should be included");
    assert!(patterns.contains(&"/rss.xml"), "RSS pattern /rss.xml should be included");
}

#[test]
fn test_feed_patterns_no_duplicates() {
    let mut seen = std::collections::HashSet::new();
    for pattern in feed_patterns() {
        assert!(seen.insert(pattern), "Duplicate feed pattern found: {}", pattern);
    }
}

/// Runs a validation against a fake web: `pages` maps URLs to bodies, and
/// `status` is what any status check returns. Records every URL requested.
fn run(kind: SourceType, url: &str, pages: &[(&str, &[u8])], status: u16) -> (Result<feeder::domain::FeedMetadata, FeederError>, Vec<String>) {
    let lookup = |u: &str| pages.iter().find(|(p, _)| *p == u).map(|(_, b)| b.to_vec());
    let mut requested = Vec::new();
    let (mut v, mut step) = Validation::start(kind, url);
    loop {
        step = match step {
            ValidationStep::Done(r) => return (r, requested),
            ValidationStep::FetchPage(u) => {
                requested.push(u.clone());
                let page = lookup(&u).map(|b| String::from_utf8(b).unwrap()).ok_or(FeederError::Http("404".to_string()));
                v.on_page(page)
            },
            ValidationStep::CheckStatus(u) => {
                requested.push(u.clone());
                v.on_status(Ok(status))
            },
            ValidationStep::Fetch(u) => {
                requested.push(u.clone());
                v.on_fetch(lookup(&u).ok_or(FeederError::Http("404".to_string())))
            },
            ValidationStep::Probe(u) => {
                requested.push(u.clone());
                v.on_probe(lookup(&u).is_some())
            },
        };
    }
}

#[test]
fn discovery_finds_feed_path() {
    let (result, requested) = run(SourceType::RssAtom, "https://site", &[("https://site/feed/", SAMPLE_RSS)], 200);
    let meta = result.unwrap();
    assert_eq!(meta.feed_url, "https://site/feed/");
    assert_eq!(meta.title, "Site Feed");
    assert_eq!(meta.feed_type, FeedType::Rss);
    assert_eq!(meta.source_type, SourceType::RssAtom);
    assert_eq!(meta.description.as_deref(), Some("A site."));
    assert_eq!(requested, vec!["https://site", "https://site/feed/", "https://site/feed/"]);
}

#[test]
fn discovery_takes_direct_feed() {
    let (result, requested) = run(SourceType::RssAtom, "https://site/x.xml", &[("https://site/x.xml", SAMPLE_RSS)], 200);
    assert_eq!(result.unwrap().feed_url, "https://site/x.xml");
    assert_eq!(requested.len(), 1);
}

#[test]
fn discovery_tries_paths_in_order() {
    let (result, requested) = run(SourceType::RssAtom, "https://site/blog", &[("https://site/.rss", SAMPLE_RSS)], 200);
    assert_eq!(result.unwrap().feed_url, "https://site/.rss");
    let probes: Vec<String> = feed_patterns().iter().map(|p| format!("https://site{}", p)).collect();
    assert_eq!(&requested[1..10], &probes[..]);
}

#[test]
fn discovery_reports_last_parse_error() {
    let (result, _) = run(SourceType::RssAtom, "https://site", &[("https://site/rss", b"not a feed")], 200);
    assert!(matches!(result, Err(FeederError::FeedParse(_))));
    let (result, _) = run(SourceType::RssAtom, "https://site", &[], 200);
    match result {
        Err(FeederError::FeedParse(m)) => assert_eq!(m, "No valid feed found"),
        other => panic!("unexpected {:?}", other),
    }
}

#[test]
fn wordpress_validates_feed_path() {
    let (result, requested) = run(SourceType::WordPress, "https://example.com/blog", &[("https://example.com/feed/", SAMPLE_RSS)], 200);
    let meta = result.unwrap();
    assert_eq!(meta.feed_url, "https://example.com/feed/");
    assert_eq!(meta.source_type, SourceType::WordPress);
    assert_eq!(requested[0], "https://example.com/feed/");
}

#[test]
fn mastodon_validates_user_feed() {
    let (result, _) = run(SourceType::Mastodon, "https://mastodon.social/@testuser", &[("https://mastodon.social/users/testuser.rss", SAMPLE_RSS)], 200);
    let meta = result.unwrap();
    assert_eq!(meta.feed_url, "https://mastodon.social/users/testuser.rss");
    assert_eq!(meta.source_type, SourceType::Mastodon);
}

#[test]
fn youtube_reports_missing_feed() {
    let url = "https://www.youtube.com/channel/UCabcdefghijklmnopqrstuv/videos";
    let (result, requested) = run(SourceType::YouTube, url, &[], 404);
    assert_eq!(requested, vec!["https://www.youtube.com/feeds/videos.xml?channel_id=UCabcdefghijklmnopqrstuv"]);
    match result {
        Err(FeederError::FeedValidation(m)) => assert_eq!(
            m,
            "YouTube RSS feed not available for this channel (HTTP 404). Some channels may not have RSS feeds enabled."
        ),
        other => panic!("unexpected {:?}", other),
    }
}

#[test]
fn youtube_handle_reads_channel_page() {
    let feed = "https://www.youtube.com/feeds/videos.xml?channel_id=UCabcdefghijklmnopqrstuv";
    let page: &[u8] = br#"<html><head><meta itemprop="channelId" content="UCabcdefghijklmnopqrstuv"></head></html>"#;
    let (result, requested) = run(SourceType::YouTube, "https://www.youtube.com/@someone/shorts", &[("https://www.youtube.com/@someone", page), (feed, SAMPLE_RSS)], 200);
    let meta = result.unwrap();
    assert_eq!(meta.feed_url, feed);
    assert_eq!(meta.source_type, SourceType::YouTube);
    assert_eq!(requested[0], "https://www.youtube.com/@someone");
}
