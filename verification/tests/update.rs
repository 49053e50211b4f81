use hatsu::error::{AppError, ParseFault};
use hatsu::feed::{FeedDescriptor, FeedFormat, JsonUserFeed, JsonUserFeedItem};
use hatsu::update::{
    contains_id, diff, fast_update, fast_update_partial, fresh_items, plan_cycle, ActorCycle,
    ChangeKind, CycleOutcome, CyclePlan, Observation,
};
use hatsu::web_url::WebUrl;

fn item(id: &str) -> JsonUserFeedItem {
    JsonUserFeedItem {
        id: id.to_string(),
        url: None,
        title: None,
        summary: None,
        language: None,
        tags: vec![],
        date_published: None,
        date_modified: None,
    }
}

fn feed(ids: &[&str]) -> JsonUserFeed {
    JsonUserFeed {
        feed_url: WebUrl::parse("https://example.com/feed.json").unwrap(),
        next_url: None,
        title: "Example".to_string(),
        description: None,
        icon: None,
        language: None,
        items: ids.iter().map(|id| item(id)).collect(),
    }
}

fn ids(items: &[JsonUserFeedItem]) -> Vec<String> {
    items.iter().map(|i| i.id.clone()).collect()
}

fn cycle(actor: &str, observed: Observation) -> ActorCycle {
    ActorCycle { actor: actor.to_string(), observed }
}

#[test]
fn diff_finds_the_new_entry_and_keeps_silent_on_the_removed() {
    let previous = feed(&["a", "b"]);
    let current = feed(&["b", "c"]);
    let classified = diff(&previous, &current);
    assert_eq!(classified.len(), 2);
    assert_eq!(classified[0].0.id, "b");
    assert_eq!(classified[0].1, ChangeKind::Unchanged);
    assert_eq!(classified[1].0.id, "c");
    assert_eq!(classified[1].1, ChangeKind::New);
    assert!(classified.iter().all(|(item, _)| item.id != "a"));
    let new: Vec<&str> = classified
        .iter()
        .filter(|(_, kind)| *kind == ChangeKind::New)
        .map(|(item, _)| item.id.as_str())
        .collect();
    assert_eq!(new, vec!["c"]);
}

#[test]
fn diff_twice_gives_the_same_classification() {
    let previous = feed(&["a", "b"]);
    let current = feed(&["c", "b", "d"]);
    let first = diff(&previous, &current);
    let second = diff(&previous, &current);
    assert_eq!(first.len(), second.len());
    for (a, b) in first.iter().zip(second.iter()) {
        assert!(a.0.same(&b.0));
        assert_eq!(a.1, b.1);
    }
}

#[test]
fn diff_against_itself_finds_nothing_new() {
    let current = feed(&["a", "b", "c"]);
    let classified = diff(&current, &current);
    assert_eq!(classified.len(), 3);
    assert!(classified.iter().all(|(_, kind)| *kind == ChangeKind::Unchanged));
    assert!(fresh_items(&current, &current).is_empty());
}

#[test]
fn diff_goes_by_identifier_alone() {
    let previous = feed(&["a"]);
    let mut current = feed(&["a"]);
    current.items[0].title = Some("A new title".to_string());
    current.items[0].date_modified = Some("2024-01-16T08:00:00Z".to_string());
    let classified = diff(&previous, &current);
    assert_eq!(classified.len(), 1);
    assert_eq!(classified[0].1, ChangeKind::Unchanged);
    assert_eq!(classified[0].0.title, Some("A new title".to_string()));
    assert!(fresh_items(&previous, &current).is_empty());
}

#[test]
fn diff_keeps_the_order_of_the_source() {
    let previous = feed(&[]);
    let current = feed(&["z", "a", "m"]);
    let classified = diff(&previous, &current);
    let order: Vec<&str> = classified.iter().map(|(item, _)| item.id.as_str()).collect();
    assert_eq!(order, vec!["z", "a", "m"]);
    assert!(classified.iter().all(|(_, kind)| *kind == ChangeKind::New));
    assert_eq!(ids(&fresh_items(&previous, &current)), vec!["z", "a", "m"]);
}

#[test]
fn diff_of_empty_current_is_empty() {
    let previous = feed(&["a"]);
    let current = feed(&[]);
    assert!(diff(&previous, &current).is_empty());
    assert!(fresh_items(&previous, &current).is_empty());
}

#[test]
fn diff_reports_a_repeated_identifier_each_time() {
    let previous = feed(&["a"]);
    let current = feed(&["b", "b", "a"]);
    let classified = diff(&previous, &current);
    assert_eq!(classified.len(), 3);
    assert_eq!(classified[0].1, ChangeKind::New);
    assert_eq!(classified[1].1, ChangeKind::New);
    assert_eq!(classified[2].1, ChangeKind::Unchanged);
    assert_eq!(ids(&fresh_items(&previous, &current)), vec!["b", "b"]);
}

#[test]
fn fresh_items_are_the_new_ones_in_order() {
    let previous = feed(&["a", "b"]);
    let current = feed(&["d", "b", "c", "a"]);
    assert_eq!(ids(&fresh_items(&previous, &current)), vec!["d", "c"]);
}

#[test]
fn contains_id_looks_at_identifiers_only() {
    let mut items = vec![item("a"), item("b")];
    items[1].title = Some("c".to_string());
    assert!(contains_id(&items, &"a".to_string()));
    assert!(contains_id(&items, &"b".to_string()));
    assert!(!contains_id(&items, &"c".to_string()));
    assert!(!contains_id(&vec![], &"a".to_string()));
}

#[test]
fn partial_update_without_snapshot_is_idle() {
    let report = fast_update_partial(&cycle("https://example.com/u/alice", Observation::NoSnapshot));
    assert_eq!(report.actor, "https://example.com/u/alice");
    assert!(matches!(report.outcome, CycleOutcome::Idle));
}

#[test]
fn partial_update_hands_a_failure_on() {
    let failed = Observation::Failed(AppError::Transport { reason: "timed out".to_string() });
    let report = fast_update_partial(&cycle("alice", failed));
    match report.outcome {
        CycleOutcome::Failed(AppError::Transport { reason }) => assert_eq!(reason, "timed out"),
        other => panic!("unexpected: {:?}", other),
    }
}

#[test]
fn partial_update_names_new_entries_and_next_snapshot() {
    let observed = Observation::Acquired { previous: feed(&["a", "b"]), current: feed(&["b", "c"]) };
    let report = fast_update_partial(&cycle("alice", observed));
    match report.outcome {
        CycleOutcome::Synced { fresh, snapshot } => {
            assert_eq!(ids(&fresh), vec!["c"]);
            assert_eq!(ids(&snapshot.items), vec!["b", "c"]);
            assert_eq!(snapshot.title, "Example");
        }
        other => panic!("unexpected: {:?}", other),
    }
}

#[test]
fn failure_of_one_actor_does_not_stop_the_others() {
    let cycles = vec![
        cycle(
            "https://example.com/u/alice",
            Observation::Acquired { previous: feed(&["a"]), current: feed(&["a", "b"]) },
        ),
        cycle("https://example.com/u/bob", Observation::Failed(AppError::Parse(ParseFault::Title))),
        cycle(
            "https://example.com/u/carol",
            Observation::Failed(AppError::NotFound {
                kind: "Feed Url".to_string(),
                name: "carol".to_string(),
            }),
        ),
        cycle("https://example.com/u/dave", Observation::NoSnapshot),
        cycle(
            "https://example.com/u/erin",
            Observation::Acquired { previous: feed(&[]), current: feed(&["x"]) },
        ),
    ];
    let reports = fast_update(&cycles);
    assert_eq!(reports.len(), 5);
    let actors: Vec<&str> = reports.iter().map(|r| r.actor.as_str()).collect();
    assert_eq!(
        actors,
        vec![
            "https://example.com/u/alice",
            "https://example.com/u/bob",
            "https://example.com/u/carol",
            "https://example.com/u/dave",
            "https://example.com/u/erin",
        ]
    );
    match &reports[0].outcome {
        CycleOutcome::Synced { fresh, .. } => assert_eq!(ids(fresh), vec!["b"]),
        other => panic!("unexpected: {:?}", other),
    }
    assert!(matches!(
        &reports[1].outcome,
        CycleOutcome::Failed(AppError::Parse(ParseFault::Title))
    ));
    match &reports[2].outcome {
        CycleOutcome::Failed(AppError::NotFound { kind, name }) => {
            assert_eq!(kind, "Feed Url");
            assert_eq!(name, "carol");
        }
        other => panic!("unexpected: {:?}", other),
    }
    assert!(matches!(&reports[3].outcome, CycleOutcome::Idle));
    match &reports[4].outcome {
        CycleOutcome::Synced { fresh, snapshot } => {
            assert_eq!(ids(fresh), vec!["x"]);
            assert_eq!(ids(&snapshot.items), vec!["x"]);
        }
        other => panic!("unexpected: {:?}", other),
    }
}

#[test]
fn cycle_over_no_actors_reports_nothing() {
    assert!(fast_update(&vec![]).is_empty());
}

#[test]
fn plan_without_snapshot_fetches_nothing() {
    let feed = FeedDescriptor {
        json: Some("https://example.com/feed.json".to_string()),
        atom: None,
        rss: None,
    };
    assert!(matches!(plan_cycle(false, feed, "alice"), CyclePlan::Idle));
}

#[test]
fn plan_without_feed_url_fails_before_any_fetch() {
    for has_snapshot in [true, false] {
        let feed = FeedDescriptor { json: None, atom: None, rss: None };
        match plan_cycle(has_snapshot, feed, "alice") {
            CyclePlan::Failed(AppError::NotFound { kind, name }) => {
                assert_eq!(kind, "Feed Url");
                assert_eq!(name, "alice");
            }
            other => panic!("unexpected: {:?}", other),
        }
    }
}

#[test]
fn actor_without_feed_url_ends_its_cycle_in_not_found() {
    let feed = FeedDescriptor { json: None, atom: None, rss: None };
    let observed = plan_cycle(false, feed, "alice").settle().unwrap();
    let report = fast_update_partial(&cycle("https://example.com/u/alice", observed));
    match report.outcome {
        CycleOutcome::Failed(AppError::NotFound { kind, name }) => {
            assert_eq!(kind, "Feed Url");
            assert_eq!(name, "alice");
        }
        other => panic!("unexpected: {:?}", other),
    }
}

#[test]
fn plan_with_a_bad_url_waits_for_a_snapshot() {
    let bad = || FeedDescriptor { json: Some("/feed.json".to_string()), atom: None, rss: None };
    assert!(matches!(plan_cycle(false, bad(), "alice"), CyclePlan::Idle));
    assert!(matches!(
        plan_cycle(true, bad(), "alice"),
        CyclePlan::Failed(AppError::Parse(ParseFault::Url))
    ));
}

#[test]
fn settled_plan_needs_no_fetch() {
    assert!(matches!(CyclePlan::Idle.settle(), Ok(Observation::NoSnapshot)));
    assert!(matches!(
        CyclePlan::Failed(AppError::Parse(ParseFault::Url)).settle(),
        Ok(Observation::Failed(AppError::Parse(ParseFault::Url)))
    ));
    let feed = FeedDescriptor {
        json: None,
        atom: None,
        rss: Some("https://example.com/rss.xml".to_string()),
    };
    match plan_cycle(true, feed, "alice").settle() {
        Err(request) => {
            assert_eq!(request.format, FeedFormat::Xml);
            assert_eq!(request.url.as_str(), "https://example.com/rss.xml");
        }
        other => panic!("unexpected: {:?}", other),
    }
}

#[test]
fn plan_names_the_source_of_highest_priority() {
    let feed = FeedDescriptor {
        json: None,
        atom: Some("https://example.com/atom.xml".to_string()),
        rss: Some("https://example.com/rss.xml".to_string()),
    };
    match plan_cycle(true, feed, "alice") {
        CyclePlan::Acquire(request) => {
            assert_eq!(request.format, FeedFormat::Xml);
            assert_eq!(request.url.as_str(), "https://example.com/atom.xml");
        }
        other => panic!("unexpected: {:?}", other),
    }
}
