use feeder::domain::SourceType;
use feeder::errors::FeederError;
use feeder::feed_doc::truncate_for_title;
use feeder::html::html_to_text;
use feeder::sources::{
    can_handle, BloggerSource, ChannelLookup, Detection, Handling, MastodonSource, RssAtomSource,
    SourceRegistry, WordPressSource, YouTubeSource,
};

/// Detection for a machine without network: every site question is answered no.
fn detect_offline(registry: &SourceRegistry, url: &str) -> Option<SourceType> {
    let mut d = registry.find_source(url);
    loop {
        match d {
            Detection::Found(k) => return Some(k),
            Detection::Unsupported => return None,
            Detection::AskSite { index, .. } => d = registry.on_site_answer(url, index, false),
        }
    }
}

#[test]
fn test_youtube_detected_first() {
    let registry = SourceRegistry::new();
    let source = detect_offline(&registry, "https://www.youtube.com/@channel").unwrap();
    assert_eq!(source, SourceType::YouTube);
}

#[test]
fn test_mastodon_detected() {
    let registry = SourceRegistry::new();
    let source = detect_offline(&registry, "https://mastodon.social/@user").unwrap();
    assert_eq!(source, SourceType::Mastodon);
}

#[test]
fn test_blogger_detected() {
    let registry = SourceRegistry::new();
    let source = detect_offline(&registry, "https://example.blogspot.com").unwrap();
    assert_eq!(source, SourceType::Blogger);
}

#[test]
fn test_fallback_to_rss() {
    let registry = SourceRegistry::new();
    let source = detect_offline(&registry, "https://example.com/feed.xml").unwrap();
    assert_eq!(source, SourceType::RssAtom);
}

#[test]
fn test_youtube_urls_not_handled_by_rss() {
    let registry = SourceRegistry::new();
    let youtube_urls = [
        "https://www.youtube.com/@channel",
        "https://youtube.com/@someuser",
        "https://www.youtube.com/channel/UCxxxx",
        "https://www.youtube.com/c/channelname",
    ];
    for url in youtube_urls {
        let source = detect_offline(&registry, url).unwrap();
        assert_eq!(source, SourceType::YouTube, "URL {} should be detected as YouTube, not {:?}", url, source);
    }
}

#[test]
fn test_mastodon_urls_not_handled_by_rss() {
    let registry = SourceRegistry::new();
    let mastodon_urls = [
        "https://mastodon.social/@user",
        "https://fosstodon.org/@someone",
        "https://hachyderm.io/@developer",
    ];
    for url in mastodon_urls {
        let source = detect_offline(&registry, url).unwrap();
        assert_eq!(source, SourceType::Mastodon, "URL {} should be detected as Mastodon, not {:?}", url, source);
    }
}

#[test]
fn test_blogger_urls_not_handled_by_rss() {
    let registry = SourceRegistry::new();
    let blogger_urls = [
        "https://example.blogspot.com",
        "https://myblog.blogspot.com/2024/01/post.html",
    ];
    for url in blogger_urls {
        let source = detect_offline(&registry, url).unwrap();
        assert_eq!(source, SourceType::Blogger, "URL {} should be detected as Blogger, not {:?}", url, source);
    }
}

#[test]
fn test_generic_urls_fallback_to_rss() {
    let registry = SourceRegistry::new();
    let generic_urls = [
        "https://example.com",
        "https://blog.example.org/posts",
        "https://somesite.net/articles",
    ];
    for url in generic_urls {
        let source = detect_offline(&registry, url).unwrap();
        assert_eq!(source, SourceType::RssAtom, "URL {} should fall back to RssAtom, not {:?}", url, source);
    }
}

#[test]
fn wordpress_site_question_decides() {
    let registry = SourceRegistry::new();
    let url = "https://blog.example.org/posts";
    match registry.find_source(url) {
        Detection::AskSite { index, probe_url } => {
            assert_eq!(probe_url, "https://blog.example.org/wp-json/");
            assert_eq!(registry.sources[index], SourceType::WordPress);
            assert!(matches!(registry.on_site_answer(url, index, true), Detection::Found(SourceType::WordPress)));
        },
        other => panic!("unexpected {:?}", other),
    }
}

#[test]
fn empty_registry_supports_nothing() {
    let mut registry = SourceRegistry { sources: Vec::new() };
    assert!(matches!(registry.find_source("https://example.com"), Detection::Unsupported));
    registry.register(SourceType::Blogger);
    assert!(matches!(registry.find_source("https://example.com"), Detection::Unsupported));
    assert!(matches!(registry.find_source("https://x.blogspot.com"), Detection::Found(SourceType::Blogger)));
}

#[test]
fn fetch_uses_stored_kind() {
    let registry = SourceRegistry { sources: vec![SourceType::RssAtom] };
    let feed = feeder::domain::Feed::new(
        "https://www.youtube.com/@x".to_string(),
        "https://www.youtube.com/feeds/videos.xml?channel_id=UC".to_string(),
        "X".to_string(),
        feeder::domain::FeedType::Atom,
        SourceType::YouTube,
    );
    match registry.fetch_strategy(&feed) {
        Err(FeederError::UnsupportedSource(m)) => assert_eq!(m, "youtube"),
        other => panic!("unexpected {:?}", other),
    }
    assert_eq!(SourceRegistry::new().fetch_strategy(&feed).unwrap(), SourceType::YouTube);
    let body: &[u8] = br#"<?xml version="1.0"?><feed xmlns="http://www.w3.org/2005/Atom"><title>X</title><id>x</id><updated>2024-01-15T12:00:00Z</updated><entry><title>Video</title><id>yt:1</id><link href="https://www.youtube.com/watch?v=1"/><updated>2024-01-15T12:00:00Z</updated></entry></feed>"#;
    let articles = SourceRegistry::new().fetch_articles(&feed, body).unwrap();
    assert_eq!(articles.len(), 1);
    assert_eq!(articles[0].id, "yt:1");
    assert_eq!(articles[0].title, "Video");
    assert!(matches!(registry.fetch_articles(&feed, body), Err(FeederError::UnsupportedSource(_))));
}

#[test]
fn test_can_handle_blogger_urls() {
    let source = BloggerSource::new();
    assert!(source.can_handle("https://example.blogspot.com"));
    assert!(source.can_handle("https://myblog.blogspot.com/2023/01/post.html"));
    assert!(!source.can_handle("https://example.com"));
    assert!(!source.can_handle("https://wordpress.com"));
}

#[test]
fn blogger_test_build_feed_url() {
    let source = BloggerSource::new();
    let feed_url = source.build_feed_url("https://example.blogspot.com").unwrap();
    assert_eq!(feed_url, "https://example.blogspot.com/feeds/posts/default");
    let feed_url = source.build_feed_url("https://myblog.blogspot.com/2023/post").unwrap();
    assert_eq!(feed_url, "https://myblog.blogspot.com/feeds/posts/default");
}

#[test]
fn blogger_test_source_type() {
    assert_eq!(BloggerSource::new().source_type(), SourceType::Blogger);
}

#[test]
fn blogger_build_feed_url_rejects_bad_url() {
    assert!(matches!(BloggerSource::new().build_feed_url("not a url"), Err(FeederError::InvalidUrl(_))));
}

#[test]
fn test_can_handle_mastodon_urls() {
    let source = MastodonSource::new();
    assert!(source.can_handle("https://mastodon.social/@username"));
    assert!(source.can_handle("https://fosstodon.org/@user"));
    assert!(source.can_handle("https://hachyderm.io/@someone"));
    assert!(!source.can_handle("https://example.com/feed"));
    assert!(!source.can_handle("https://youtube.com/@channel"));
}

#[test]
fn test_extract_user_info() {
    let source = MastodonSource::new();
    let (instance, username) = source.extract_user_info("https://mastodon.social/@testuser").unwrap();
    assert_eq!(instance, "mastodon.social");
    assert_eq!(username, "testuser");
}

#[test]
fn extract_user_info_needs_a_profile_path() {
    let source = MastodonSource::new();
    match source.extract_user_info("https://mastodon.social/about") {
        Err(FeederError::InvalidUrl(m)) => assert_eq!(m, "Could not extract Mastodon username from URL"),
        other => panic!("unexpected {:?}", other),
    }
}

#[test]
fn mastodon_test_build_feed_url() {
    let source = MastodonSource::new();
    let feed_url = source.build_feed_url("mastodon.social", "testuser");
    assert_eq!(feed_url, "https://mastodon.social/users/testuser.rss");
}

#[test]
fn mastodon_test_source_type() {
    assert_eq!(MastodonSource::new().source_type(), SourceType::Mastodon);
}

#[test]
fn test_html_to_text_simple() {
    assert_eq!(html_to_text("<p>Hello world</p>"), "Hello world");
}

#[test]
fn test_html_to_text_with_links() {
    let html = r#"<p>Check out <a href="https://example.com">this link</a>!</p>"#;
    assert_eq!(html_to_text(html), "Check out this link!");
}

#[test]
fn test_html_to_text_multiple_paragraphs() {
    let html = "<p>First paragraph</p><p>Second paragraph</p>";
    assert_eq!(html_to_text(html), "First paragraph Second paragraph");
}

#[test]
fn test_html_to_text_with_hashtags() {
    let html = r#"<p>Post content <a href="https://mastodon.social/tags/test" class="mention hashtag">#<span>test</span></a></p>"#;
    assert_eq!(html_to_text(html), "Post content #test");
}

#[test]
fn test_html_to_text_strips_extra_whitespace() {
    assert_eq!(html_to_text("<p>  Multiple   spaces   here  </p>"), "Multiple spaces here");
}

#[test]
fn test_html_to_text_empty() {
    assert_eq!(html_to_text(""), "");
}

#[test]
fn test_html_to_text_real_mastodon_post() {
    let html = r#"<p>Design Unlimited Bundle Encore</p><p>Get CorelDRAW Standard 2024!</p><p><a href="https://www.humblebundle.com/software/design-unlimited-bundle-encore-software" target="_blank" rel="nofollow noopener" translate="no"><span class="invisible">https://www.</span><span class="ellipsis">humblebundle.com/software/desi</span><span class="invisible">gn-unlimited-bundle-encore-software</span></a></p><p><a href="https://tech.lgbt/tags/humblebundle" class="mention hashtag" rel="tag">#<span>humblebundle</span></a></p>"#;
    let text = html_to_text(html);
    assert!(text.starts_with("Design Unlimited Bundle Encore"));
    assert!(text.contains("CorelDRAW"));
}

#[test]
fn test_truncate_for_title_short_text() {
    assert_eq!(truncate_for_title("Short text", 50), "Short text");
}

#[test]
fn test_truncate_for_title_long_text() {
    let text = "This is a very long text that should be truncated at a word boundary";
    assert_eq!(truncate_for_title(text, 30), "This is a very long text that...");
}

#[test]
fn test_truncate_for_title_exact_length() {
    assert_eq!(truncate_for_title("Exactly twenty chars", 20), "Exactly twenty chars");
}

#[test]
fn test_truncate_for_title_no_word_boundary() {
    assert_eq!(truncate_for_title("Verylongwordwithoutspaces", 10), "Verylongwo...");
}

#[test]
fn test_can_handle_any_url() {
    let source = RssAtomSource::new();
    assert!(source.can_handle("https://example.com/feed.xml"));
    assert!(source.can_handle("https://blog.rust-lang.org/feed.xml"));
}

#[test]
fn rss_atom_test_source_type() {
    assert_eq!(RssAtomSource::new().source_type(), SourceType::RssAtom);
}

#[test]
fn test_can_handle_wordpress_com_urls() {
    let source = WordPressSource::new();
    assert!(matches!(source.can_handle("https://example.wordpress.com"), Handling::Yes));
    assert!(matches!(source.can_handle("https://blog.wordpress.com/2023/01/post"), Handling::Yes));
    match source.can_handle("https://example.com/blog") {
        Handling::AskSite(u) => assert_eq!(u, "https://example.com/wp-json/"),
        other => panic!("unexpected {:?}", other),
    }
    assert!(matches!(can_handle(SourceType::WordPress, "not a url"), Handling::No));
}

#[test]
fn wordpress_test_build_feed_url() {
    let source = WordPressSource::new();
    let feed_url = source.build_feed_url("https://example.com/blog").unwrap();
    assert_eq!(feed_url, "https://example.com/feed/");
    let feed_url = source.build_feed_url("https://blog.wordpress.com").unwrap();
    assert_eq!(feed_url, "https://blog.wordpress.com/feed/");
}

#[test]
fn wordpress_test_source_type() {
    assert_eq!(WordPressSource::new().source_type(), SourceType::WordPress);
}

#[test]
fn test_can_handle_youtube_urls() {
    let source = YouTubeSource::new();
    assert!(source.can_handle("https://www.youtube.com/channel/UCxxx"));
    assert!(source.can_handle("https://youtube.com/@username"));
    assert!(source.can_handle("https://www.youtube.com/c/channelname"));
    assert!(source.can_handle("https://www.youtube.com/user/username"));
    assert!(!source.can_handle("https://example.com/feed"));
    assert!(!source.can_handle("https://mastodon.social/@user"));
}

#[test]
fn youtube_test_source_type() {
    assert_eq!(YouTubeSource::new().source_type(), SourceType::YouTube);
}

#[test]
fn youtube_test_build_feed_url() {
    let source = YouTubeSource::new();
    let feed_url = source.build_feed_url("UCxxxxxxxxxxxxxxxxxxxxxxx");
    assert_eq!(feed_url, "https://www.youtube.com/feeds/videos.xml?channel_id=UCxxxxxxxxxxxxxxxxxxxxxxx");
}

#[test]
fn test_normalize_channel_url_strips_videos() {
    let source = YouTubeSource::new();
    assert_eq!(source.normalize_channel_url("https://www.youtube.com/@username/videos"), "https://www.youtube.com/@username");
}

#[test]
fn test_normalize_channel_url_strips_shorts() {
    let source = YouTubeSource::new();
    assert_eq!(source.normalize_channel_url("https://www.youtube.com/@username/shorts"), "https://www.youtube.com/@username");
}

#[test]
fn test_normalize_channel_url_strips_streams() {
    let source = YouTubeSource::new();
    assert_eq!(source.normalize_channel_url("https://www.youtube.com/@username/streams"), "https://www.youtube.com/@username");
}

#[test]
fn test_normalize_channel_url_strips_playlists() {
    let source = YouTubeSource::new();
    assert_eq!(source.normalize_channel_url("https://www.youtube.com/@username/playlists"), "https://www.youtube.com/@username");
}

#[test]
fn test_normalize_channel_url_preserves_clean_url() {
    let source = YouTubeSource::new();
    assert_eq!(source.normalize_channel_url("https://www.youtube.com/@username"), "https://www.youtube.com/@username");
}

#[test]
fn test_normalize_channel_url_with_channel_id() {
    let source = YouTubeSource::new();
    assert_eq!(source.normalize_channel_url("https://www.youtube.com/channel/UCxxx/videos"), "https://www.youtube.com/channel/UCxxx");
}

#[test]
fn channel_id_from_url_or_page() {
    let source = YouTubeSource::new();
    let id = "UCabcdefghijklmnopqrstuv";
    match source.extract_channel_id(&format!("https://www.youtube.com/channel/{}", id)) {
        Ok(ChannelLookup::Id(found)) => assert_eq!(found, id),
        other => panic!("unexpected {:?}", other),
    }
    assert!(matches!(source.extract_channel_id("https://www.youtube.com/@someone"), Ok(ChannelLookup::Page(_))));
    assert!(matches!(source.extract_channel_id("https://www.youtube.com/watch?v=1"), Err(FeederError::InvalidUrl(_))));
}

#[test]
fn channel_id_read_from_page() {
    let id = "UCabcdefghijklmnopqrstuv";
    let page = format!(r#"<html><head><meta itemprop="channelId" content="{}"></head></html>"#, id);
    assert_eq!(feeder::html::channel_id_from_page(&page).unwrap(), id);
    let page = format!(r#"<html><head><link rel="canonical" href="https://www.youtube.com/channel/{}"></head></html>"#, id);
    assert_eq!(feeder::html::channel_id_from_page(&page).unwrap(), id);
    let page = format!(r#"<script>var x = {{"channelId":"{}"}};</script>"#, id);
    assert_eq!(feeder::html::channel_id_from_page(&page).unwrap(), id);
    assert!(matches!(feeder::html::channel_id_from_page("<p>nothing</p>"), Err(FeederError::FeedValidation(_))));
}
