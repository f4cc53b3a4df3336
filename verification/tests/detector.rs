use rust_notify::detect::{contains_identity, diff};
use rust_notify::page::Page;

fn page(id: &str, url: &str) -> Page {
    Page::new(String::from(id), String::from(url), None)
}

#[test]
fn disjoint_sets_all_new() {
    let prev = vec![page("a", "http://x/a"), page("b", "http://x/b")];
    let cur = vec![page("1", "http://x/1"), page("2", "http://x/2"), page("3", "http://x/3")];
    let fresh = diff(&prev, &cur);
    assert_eq!(fresh.len(), 3);
    assert_eq!(fresh[0].id, "1");
    assert_eq!(fresh[1].id, "2");
    assert_eq!(fresh[2].id, "3");
}

#[test]
fn subset_nothing_new() {
    let prev = vec![page("1", "http://x/1"), page("2", "http://x/2"), page("3", "http://x/3")];
    let cur = vec![page("3", "http://x/3"), page("1", "http://x/1")];
    let fresh = diff(&prev, &cur);
    assert!(fresh.is_empty());
}

#[test]
fn identical_sets_nothing_new() {
    let prev = vec![page("1", "http://x/1"), page("2", "http://x/2")];
    let cur = vec![page("1", "http://x/1"), page("2", "http://x/2")];
    let fresh = diff(&prev, &cur);
    assert!(fresh.is_empty());
}

#[test]
fn identical_inputs_identical_order() {
    let prev = vec![page("5", "http://x/5")];
    let cur = vec![
        page("9", "http://x/9"),
        page("5", "http://x/5"),
        page("7", "http://x/7"),
        page("8", "http://x/8"),
    ];
    let first: Vec<String> = diff(&prev, &cur).into_iter().map(|p| p.id).collect();
    let second: Vec<String> = diff(&prev, &cur).into_iter().map(|p| p.id).collect();
    assert_eq!(first, vec!["9", "7", "8"]);
    assert_eq!(first, second);
}

#[test]
fn current_empty_yields_nothing() {
    let prev = vec![page("1", "http://x/1"), page("2", "http://x/2")];
    let cur: Vec<Page> = Vec::new();
    let fresh = diff(&prev, &cur);
    assert!(fresh.is_empty());
}

#[test]
fn identity_is_id_alone() {
    // Same id with a changed URL is not a new record: the URL is payload.
    let prev = vec![page("1", "http://x/old")];
    let cur = vec![page("1", "http://x/new")];
    let fresh = diff(&prev, &cur);
    assert!(fresh.is_empty());
    assert!(page("1", "http://x/old") == page("1", "http://x/new"));
    assert!(page("1", "http://x/1") != page("2", "http://x/1"));
}

#[test]
fn source_duplicates_pass_through() {
    // The detector does not deduplicate what the source itself duplicates.
    let prev: Vec<Page> = Vec::new();
    let cur = vec![page("2", "http://x/2"), page("2", "http://x/2b")];
    let fresh = diff(&prev, &cur);
    assert_eq!(fresh.len(), 2);
    assert_eq!(fresh[0].url, "http://x/2");
    assert_eq!(fresh[1].url, "http://x/2b");
}

#[test]
fn contains_identity_checks_ids() {
    let prev = vec![page("1", "http://x/1"), page("2", "http://x/2")];
    assert!(contains_identity(&prev, &page("2", "anything")));
    assert!(!contains_identity(&prev, &page("3", "http://x/2")));
}

#[test]
fn timestamp_is_payload_only() {
    // A changed last-modified timestamp alone is not novelty.
    let prev = vec![Page::new(
        String::from("1"),
        String::from("http://x/1"),
        Some(String::from("2022-01-01T00:00:00Z")),
    )];
    let cur = vec![Page::new(
        String::from("1"),
        String::from("http://x/1"),
        Some(String::from("2022-02-02T00:00:00Z")),
    )];
    assert!(diff(&prev, &cur).is_empty());
}
