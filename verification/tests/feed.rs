use hatsu::error::{AppError, ParseFault};
use hatsu::feed::{
    clone_items, same_items, FeedDescriptor, FeedFormat, JsonUserFeed, JsonUserFeedItem,
};
use hatsu::text::{clone_tags, clone_text, same_tags, same_text};
use hatsu::web_url::WebUrl;

fn text(s: &str) -> Option<String> {
    Some(s.to_string())
}

fn item(id: &str) -> JsonUserFeedItem {
    JsonUserFeedItem {
        id: id.to_string(),
        url: None,
        title: None,
        summary: None,
        language: None,
        tags: vec![],
        date_published: None,
        date_modified: None,
    }
}

#[test]
fn get_feed_without_url_is_not_found() {
    let feed = FeedDescriptor { json: None, atom: None, rss: None };
    assert!(feed.is_empty());
    match JsonUserFeed::get_feed(feed, "alice") {
        Err(AppError::NotFound { kind, name }) => {
            assert_eq!(kind, "Feed Url");
            assert_eq!(name, "alice");
        }
        other => panic!("unexpected: {:?}", other),
    }
}

#[test]
fn get_feed_prefers_json_over_the_others() {
    let feed = FeedDescriptor {
        json: text("https://example.com/feed.json"),
        atom: text("https://example.com/atom.xml"),
        rss: text("https://example.com/rss.xml"),
    };
    assert!(!feed.is_empty());
    let request = JsonUserFeed::get_feed(feed, "alice").unwrap();
    assert_eq!(request.format, FeedFormat::Json);
    assert_eq!(request.url.as_str(), "https://example.com/feed.json");
}

#[test]
fn get_feed_prefers_atom_over_rss() {
    let feed = FeedDescriptor {
        json: None,
        atom: text("https://example.com/atom.xml"),
        rss: text("https://example.com/rss.xml"),
    };
    let request = JsonUserFeed::get_feed(feed, "alice").unwrap();
    assert_eq!(request.format, FeedFormat::Xml);
    assert_eq!(request.url.as_str(), "https://example.com/atom.xml");
}

#[test]
fn get_feed_takes_rss_when_alone() {
    let feed = FeedDescriptor { json: None, atom: None, rss: text("https://example.com/rss.xml") };
    let request = JsonUserFeed::get_feed(feed, "alice").unwrap();
    assert_eq!(request.format, FeedFormat::Xml);
    assert_eq!(request.url.as_str(), "https://example.com/rss.xml");
}

#[test]
fn get_feed_does_not_fall_back_from_a_bad_json_url() {
    let feed = FeedDescriptor {
        json: text("/feed.json"),
        atom: text("https://example.com/atom.xml"),
        rss: None,
    };
    match JsonUserFeed::get_feed(feed, "alice") {
        Err(AppError::Parse(ParseFault::Url)) => {}
        other => panic!("unexpected: {:?}", other),
    }
}

#[test]
fn get_feed_hands_out_the_url_as_read() {
    let feed = FeedDescriptor { json: text("HTTPS://EXAMPLE.com/feed.json"), atom: None, rss: None };
    let request = JsonUserFeed::get_feed(feed, "alice").unwrap();
    assert_eq!(request.url.as_str(), "https://example.com/feed.json");
    assert_eq!(request.url.domain(), Some("example.com"));
}

#[test]
fn optional_texts_compare_by_content() {
    assert!(same_text(&None, &None));
    assert!(same_text(&text("a"), &text("a")));
    assert!(!same_text(&text("a"), &text("b")));
    assert!(!same_text(&text("a"), &None));
    assert_eq!(clone_text(&text("a")), text("a"));
    assert_eq!(clone_text(&None), None);
}

#[test]
fn tags_compare_in_order() {
    let tags = vec![text("a"), None, text("b")];
    assert_eq!(clone_tags(&tags), tags);
    assert!(same_tags(&tags, &clone_tags(&tags)));
    assert!(!same_tags(&tags, &vec![text("a"), text("b"), None]));
    assert!(!same_tags(&tags, &vec![text("a"), None]));
    assert!(same_tags(&vec![], &vec![]));
}

#[test]
fn items_compare_in_every_field() {
    let mut a = item("a");
    a.url = Some(WebUrl::parse("https://example.com/a").unwrap());
    a.title = text("A");
    a.tags = vec![text("x")];
    let copy = a.clone();
    assert!(a.same(&copy));
    assert_eq!(copy.id, "a");
    assert_eq!(copy.url.as_ref().unwrap().as_str(), "https://example.com/a");
    assert_eq!(copy.title, text("A"));
    assert_eq!(copy.tags, vec![text("x")]);

    let mut retitled = a.clone();
    retitled.title = text("B");
    assert!(!a.same(&retitled));
    let mut dated = a.clone();
    dated.date_modified = text("2024-01-15T10:30:00Z");
    assert!(!a.same(&dated));
    let mut moved = a.clone();
    moved.url = None;
    assert!(!a.same(&moved));
}

#[test]
fn item_lists_compare_in_order() {
    let ab = vec![item("a"), item("b")];
    let ba = vec![item("b"), item("a")];
    assert!(same_items(&ab, &clone_items(&ab)));
    assert!(!same_items(&ab, &ba));
    assert!(!same_items(&ab, &vec![item("a")]));
    let copy = clone_items(&ab);
    assert_eq!(copy.len(), 2);
    assert_eq!(copy[0].id, "a");
    assert_eq!(copy[1].id, "b");
}

#[test]
fn feed_clone_keeps_every_field() {
    let feed = JsonUserFeed {
        feed_url: WebUrl::parse("https://example.com/feed.json").unwrap(),
        next_url: Some(WebUrl::parse("https://example.com/feed.json?page=2").unwrap()),
        title: "Example".to_string(),
        description: text("An example"),
        icon: Some(WebUrl::parse("https://example.com/icon.png").unwrap()),
        language: text("en"),
        items: vec![item("a"), item("b")],
    };
    let copy = feed.clone();
    assert_eq!(copy.feed_url.as_str(), "https://example.com/feed.json");
    assert_eq!(copy.next_url.unwrap().as_str(), "https://example.com/feed.json?page=2");
    assert_eq!(copy.title, "Example");
    assert_eq!(copy.description, text("An example"));
    assert_eq!(copy.icon.unwrap().as_str(), "https://example.com/icon.png");
    assert_eq!(copy.language, text("en"));
    assert!(same_items(&copy.items, &feed.items));
}
