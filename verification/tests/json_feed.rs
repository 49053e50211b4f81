use hatsu::error::{AppError, ParseFault};
use hatsu::feed::{JsonUserFeed, JsonUserFeedItem};
use hatsu::json_feed::{JsonFeedDocument, JsonFeedItemDocument};

fn text(s: &str) -> Option<String> {
    Some(s.to_string())
}

fn item_document(id: &str) -> JsonFeedItemDocument {
    JsonFeedItemDocument {
        id: id.to_string(),
        url: None,
        title: None,
        summary: None,
        language: None,
        tags: vec![],
        date_published: None,
        date_modified: None,
    }
}

fn document() -> JsonFeedDocument {
    let mut first = item_document("https://example.com/posts/1");
    first.url = text("https://example.com/posts/1");
    first.title = text("First");
    first.summary = text("The first post");
    first.language = text("en");
    first.tags = vec![text("tech"), None];
    first.date_published = text("2024-01-15T10:30:00Z");
    first.date_modified = text("2024-01-16T08:00:00Z");
    JsonFeedDocument {
        feed_url: text("https://example.com/feed.json"),
        next_url: text("https://example.com/feed.json?page=2"),
        title: text("Example"),
        description: text("An example feed"),
        icon: text("https://example.com/icon.png"),
        language: text("en"),
        items: vec![first, item_document("2")],
    }
}

#[test]
fn canonical_document_decodes_field_for_field() {
    let feed = JsonUserFeed::parse_json_feed(&document()).unwrap();
    assert_eq!(feed.feed_url.as_str(), "https://example.com/feed.json");
    assert_eq!(feed.next_url.unwrap().as_str(), "https://example.com/feed.json?page=2");
    assert_eq!(feed.title, "Example");
    assert_eq!(feed.description, text("An example feed"));
    assert_eq!(feed.icon.unwrap().as_str(), "https://example.com/icon.png");
    assert_eq!(feed.language, text("en"));
    assert_eq!(feed.items.len(), 2);
    let first = &feed.items[0];
    assert_eq!(first.id, "https://example.com/posts/1");
    assert_eq!(first.url.as_ref().unwrap().as_str(), "https://example.com/posts/1");
    assert_eq!(first.title, text("First"));
    assert_eq!(first.summary, text("The first post"));
    assert_eq!(first.language, text("en"));
    assert_eq!(first.tags, vec![text("tech"), None]);
    assert_eq!(first.date_published, text("2024-01-15T10:30:00Z"));
    assert_eq!(first.date_modified, text("2024-01-16T08:00:00Z"));
    let second = &feed.items[1];
    assert_eq!(second.id, "2");
    assert!(second.url.is_none());
    assert_eq!(second.title, None);
    assert!(second.tags.is_empty());
}

#[test]
fn document_without_title_is_a_parse_error() {
    let mut untitled = document();
    untitled.title = None;
    match JsonUserFeed::parse_json_feed(&untitled) {
        Err(AppError::Parse(ParseFault::Title)) => {}
        other => panic!("unexpected: {:?}", other),
    }
}

#[test]
fn missing_title_counts_before_a_bad_url() {
    let mut broken = document();
    broken.title = None;
    broken.feed_url = None;
    match JsonUserFeed::parse_json_feed(&broken) {
        Err(AppError::Parse(ParseFault::Title)) => {}
        other => panic!("unexpected: {:?}", other),
    }
}

#[test]
fn document_without_feed_url_is_a_parse_error() {
    let mut anonymous = document();
    anonymous.feed_url = None;
    match JsonUserFeed::parse_json_feed(&anonymous) {
        Err(AppError::Parse(ParseFault::Url)) => {}
        other => panic!("unexpected: {:?}", other),
    }
}

#[test]
fn bad_urls_are_parse_errors_wherever_they_stand() {
    let mut bad_feed_url = document();
    bad_feed_url.feed_url = text("feed.json");
    assert!(matches!(
        JsonUserFeed::parse_json_feed(&bad_feed_url),
        Err(AppError::Parse(ParseFault::Url))
    ));
    let mut bad_next = document();
    bad_next.next_url = text("?page=2");
    assert!(matches!(
        JsonUserFeed::parse_json_feed(&bad_next),
        Err(AppError::Parse(ParseFault::Url))
    ));
    let mut bad_icon = document();
    bad_icon.icon = text("icon.png");
    assert!(matches!(
        JsonUserFeed::parse_json_feed(&bad_icon),
        Err(AppError::Parse(ParseFault::Url))
    ));
    let mut bad_item = document();
    bad_item.items[1].url = text("/posts/2");
    assert!(matches!(
        JsonUserFeed::parse_json_feed(&bad_item),
        Err(AppError::Parse(ParseFault::Url))
    ));
}

#[test]
fn empty_document_with_title_and_url_is_a_feed() {
    let bare = JsonFeedDocument {
        feed_url: text("https://example.com/feed.json"),
        next_url: None,
        title: text(""),
        description: None,
        icon: None,
        language: None,
        items: vec![],
    };
    let feed = JsonUserFeed::parse_json_feed(&bare).unwrap();
    assert_eq!(feed.title, "");
    assert!(feed.next_url.is_none());
    assert!(feed.icon.is_none());
    assert!(feed.items.is_empty());
}

#[test]
fn item_document_becomes_item() {
    let mut source = item_document("a");
    source.url = text("HTTPS://example.com/A");
    let item = JsonUserFeedItem::from_document(&source).unwrap();
    assert_eq!(item.id, "a");
    assert_eq!(item.url.unwrap().as_str(), "https://example.com/A");
    source.url = text("nowhere");
    assert!(matches!(
        JsonUserFeedItem::from_document(&source),
        Err(AppError::Parse(ParseFault::Url))
    ));
}
