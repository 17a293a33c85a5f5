use feeder::delivery::{truncate_to_char_boundary, Delivery, DeliveryStep, SendOutcome};
use feeder::domain::{Article, Feed, FeedType, Notification, SourceType};
use feeder::errors::FeederError;

#[test]
fn test_notification_format_with_all_fields() {
    let notification = Notification {
        feed_title: "Tech Blog".to_string(),
        article_title: "New Rust Features".to_string(),
        text: "Rust 1.75 introduces async traits".to_string(),
        links: vec!["https://example.com/post".to_string()],
    };

    let formatted = notification.format();
    assert_eq!(
        formatted,
        "Tech Blog New Rust Features: Rust 1.75 introduces async traits https://example.com/post"
    );
}

#[test]
fn test_notification_format_without_links() {
    let notification = Notification {
        feed_title: "Blog".to_string(),
        article_title: "Title".to_string(),
        text: "Content".to_string(),
        links: vec![],
    };

    let formatted = notification.format();
    assert_eq!(formatted, "Blog Title: Content");
}

#[test]
fn test_notification_format_without_text() {
    let notification = Notification {
        feed_title: "Blog".to_string(),
        article_title: "Title".to_string(),
        text: String::new(),
        links: vec!["https://example.com".to_string()],
    };

    let formatted = notification.format();
    assert_eq!(formatted, "Blog Title https://example.com");
}

#[test]
fn test_notification_from_article() {
    let feed = Feed::new(
        "https://example.com/feed".to_string(),
        "https://example.com/feed".to_string(),
        "Example Feed".to_string(),
        FeedType::Rss,
        SourceType::RssAtom,
    );

    let article = Article::new("123".to_string(), "Test Article".to_string())
        .with_content(Some("Article content".to_string()))
        .with_links(vec!["https://example.com/article".to_string()]);

    let notification = Notification::from_article(&feed, &article);

    assert_eq!(notification.feed_title, "Example Feed");
    assert_eq!(notification.article_title, "Test Article");
    assert_eq!(notification.text, "Article content");
    assert_eq!(notification.links, vec!["https://example.com/article"]);
}

#[test]
fn format_spec_example() {
    let n = Notification {
        feed_title: "Tech Blog".to_string(),
        article_title: "New Features".to_string(),
        text: "details here".to_string(),
        links: vec!["https://x".to_string()],
    };
    assert_eq!(n.format(), "Tech Blog New Features: details here https://x");
}

#[test]
fn format_without_text_or_links() {
    let n = Notification {
        feed_title: "Tech Blog".to_string(),
        article_title: "New Features".to_string(),
        text: String::new(),
        links: vec![],
    };
    assert_eq!(n.format(), "Tech Blog New Features");
}

#[test]
fn format_joins_several_links() {
    let n = Notification {
        feed_title: "A".to_string(),
        article_title: "B".to_string(),
        text: "t".to_string(),
        links: vec!["l1".to_string(), "l2".to_string(), "l3".to_string()],
    };
    assert_eq!(n.format(), "A B: t l1 l2 l3");
}

#[test]
fn from_article_without_content_has_empty_text() {
    let feed = Feed::new("u".to_string(), "f".to_string(), "T".to_string(), FeedType::Atom, SourceType::Blogger);
    let article = Article::new("1".to_string(), "A".to_string());
    let n = Notification::from_article(&feed, &article);
    assert_eq!(n.text, "");
    assert!(n.links.is_empty());
}

#[test]
fn cache_key_joins_title_and_id() {
    let article = Article::new("article-123".to_string(), "Test".to_string());
    assert_eq!(article.cache_key("Example Feed"), "Example Feed:article-123");
    assert_ne!(article.cache_key("Renamed Feed"), article.cache_key("Example Feed"));
}

#[test]
fn truncate_respects_characters() {
    assert_eq!(truncate_to_char_boundary("héllo", 2), "hé");
    assert_eq!(truncate_to_char_boundary("héllo", 0), "");
    assert_eq!(truncate_to_char_boundary("héllo", 10), "héllo");
    assert_eq!(truncate_to_char_boundary("日本語テキスト", 3), "日本語");
}

fn body_chars(message: &str, overhead: usize) -> usize {
    message.chars().count().saturating_sub(overhead)
}

/// Delivers through a channel that accepts a message exactly when its body
/// text has at most `limit` characters; returns the delivered message and the
/// number of sends.
fn deliver_with_limit(n: Notification, limit: usize) -> (Option<String>, usize) {
    let prefix_len = format!("{} {}: ", n.feed_title, n.article_title).chars().count();
    let bare_len = format!("{} {}", n.feed_title, n.article_title).chars().count();
    let (mut d, mut message) = Delivery::new(n);
    let mut sends = 0;
    loop {
        sends += 1;
        let len = message.chars().count();
        let text = if len == bare_len { 0 } else { body_chars(&message, prefix_len) };
        let outcome = if text <= limit { SendOutcome::Sent } else { SendOutcome::TooLarge };
        let accepted = matches!(outcome, SendOutcome::Sent);
        match d.on_outcome(outcome) {
            DeliveryStep::Send(m) => message = m,
            DeliveryStep::Delivered => {
                assert!(accepted);
                return (Some(message), sends);
            },
            DeliveryStep::Failed(_) => return (None, sends),
        }
    }
}

#[test]
fn truncation_converges_within_log_attempts() {
    let text: String = "ünïcödé ".repeat(125);
    let full = text.chars().count();
    assert_eq!(full, 1000);
    for limit in [0usize, 1, 7, 100, 499, 500, 999, 1000] {
        let n = Notification {
            feed_title: "Feed".to_string(),
            article_title: "Title".to_string(),
            text: text.clone(),
            links: vec![],
        };
        let (delivered, sends) = deliver_with_limit(n, limit);
        let delivered = delivered.expect("delivery must succeed");
        let body = delivered.strip_prefix("Feed Title").unwrap();
        let body = body.strip_prefix(": ").unwrap_or(body);
        assert!(body.chars().count() <= limit);
        assert!(text.starts_with(body));
        // log2(1000) < 10
        assert!(sends <= 12, "limit {} took {} sends", limit, sends);
    }
}

#[test]
fn truncation_sends_halves() {
    let n = Notification {
        feed_title: "F".to_string(),
        article_title: "A".to_string(),
        text: "abcdefgh".to_string(),
        links: vec!["L".to_string()],
    };
    let (mut d, first) = Delivery::new(n);
    assert_eq!(first, "F A: abcdefgh L");
    match d.on_outcome(SendOutcome::TooLarge) {
        DeliveryStep::Send(m) => assert_eq!(m, "F A: abcd L"),
        other => panic!("unexpected {:?}", other),
    }
    match d.on_outcome(SendOutcome::TooLarge) {
        DeliveryStep::Send(m) => assert_eq!(m, "F A: ab L"),
        other => panic!("unexpected {:?}", other),
    }
    match d.on_outcome(SendOutcome::TooLarge) {
        DeliveryStep::Send(m) => assert_eq!(m, "F A: a L"),
        other => panic!("unexpected {:?}", other),
    }
    match d.on_outcome(SendOutcome::TooLarge) {
        DeliveryStep::Send(m) => assert_eq!(m, "F A L"),
        other => panic!("unexpected {:?}", other),
    }
    match d.on_outcome(SendOutcome::TooLarge) {
        DeliveryStep::Send(m) => assert_eq!(m, "F A L"),
        other => panic!("unexpected {:?}", other),
    }
    match d.on_outcome(SendOutcome::TooLarge) {
        DeliveryStep::Failed(FeederError::Channel(m)) => assert_eq!(m, "Payload too large"),
        other => panic!("unexpected {:?}", other),
    }
}

#[test]
fn other_channel_error_is_terminal() {
    let n = Notification {
        feed_title: "F".to_string(),
        article_title: "A".to_string(),
        text: "abc".to_string(),
        links: vec![],
    };
    let (mut d, _) = Delivery::new(n);
    match d.on_outcome(SendOutcome::Failed("HTTP request failed: boom".to_string())) {
        DeliveryStep::Failed(FeederError::Channel(m)) => assert_eq!(m, "HTTP request failed: boom"),
        other => panic!("unexpected {:?}", other),
    }
}

#[test]
fn error_messages_have_their_prefix() {
    assert_eq!(FeederError::InvalidUrl("x".to_string()).describe(), "Invalid feed URL: x");
    assert_eq!(FeederError::Channel("Payload too large".to_string()).describe(), "Channel error: Payload too large");
}

#[test]
fn kinds_parse_in_any_case() {
    assert_eq!("ATOM".parse::<FeedType>(), Ok(FeedType::Atom));
    assert_eq!("rss".parse::<FeedType>(), Ok(FeedType::Rss));
    assert_eq!("Json".parse::<FeedType>(), Ok(FeedType::Json));
    assert_eq!("xml".parse::<FeedType>(), Err("Unknown feed type: xml".to_string()));
    assert_eq!("YouTube".parse::<SourceType>(), Ok(SourceType::YouTube));
    assert_eq!("atom".parse::<SourceType>(), Ok(SourceType::RssAtom));
    assert_eq!("rss_atom".parse::<SourceType>(), Ok(SourceType::RssAtom));
    assert_eq!("Blogger".parse::<SourceType>(), Ok(SourceType::Blogger));
    assert_eq!("Tumblr".parse::<SourceType>(), Err("Unknown source type: Tumblr".to_string()));
    assert_eq!(SourceType::WordPress.as_str(), "wordpress");
    assert_eq!(FeedType::Json.as_str(), "json");
}
