use rust_notify::dispatch::{dispatch_begin, dispatch_error, dispatch_step, pending_channel, webhook_payload};
use rust_notify::config::WebhookConfig;
use rust_notify::errors::{Channel, NotifyError};
use rust_notify::page::Page;
use rust_notify::scheduler::Scheduler;

fn page(id: &str, url: &str) -> Page {
    Page::new(String::from(id), String::from(url), None)
}

#[test]
fn bootstrap_then_unchanged_is_quiet() {
    // After the bootstrap fetch, a first steady-state cycle against an
    // unchanged remote reports zero new items.
    let snapshot = vec![page("1", "http://x/1"), page("2", "http://x/2")];
    let mut sched = Scheduler::new();
    sched.bootstrap(snapshot.clone());
    assert!(sched.is_polling());
    let fresh = sched.plan_cycle(&snapshot);
    assert!(fresh.is_empty());
}

#[test]
fn one_new_item_one_webhook_payload() {
    let prev = vec![page("1", "http://x/1")];
    let cur = vec![page("1", "http://x/1"), page("2", "http://x/2")];
    let mut sched = Scheduler::new();
    sched.bootstrap(prev);
    let fresh = sched.plan_cycle(&cur);
    assert_eq!(fresh.len(), 1);
    assert_eq!(fresh[0].id, "2");
    assert_eq!(fresh[0].url, "http://x/2");

    // The dispatcher issues exactly one webhook payload for it.
    let cfg = WebhookConfig {
        webhook: String::from("http://hook.example/w"),
        username: None,
        avatar: None,
    };
    let mut posts: usize = 0;
    for item in &fresh {
        let p = webhook_payload(&cfg, item);
        assert_eq!(p.content, "New post: http://x/2");
        posts += 1;
    }
    assert_eq!(posts, 1);
}

#[test]
fn failed_dispatch_leaves_state_uncommitted() {
    // Webhook fails for the new item: the cycle ends in an error, the poll
    // state is not replaced, and the next cycle re-reports the same item.
    let prev = vec![page("1", "http://x/1")];
    let cur = vec![page("1", "http://x/1"), page("2", "http://x/2")];
    let mut sched = Scheduler::new();
    sched.bootstrap(prev);

    let fresh = sched.plan_cycle(&cur);
    assert_eq!(fresh.len(), 1);
    let ph = dispatch_begin();
    assert_eq!(pending_channel(&ph), Some(Channel::Webhook));
    let ph = dispatch_step(ph, false, true);
    assert_eq!(
        dispatch_error(&ph),
        Some(NotifyError::ChannelFailed(Channel::Webhook))
    );
    assert_eq!(pending_channel(&ph), None);
    // No commit_cycle here: the process would terminate instead.

    let again = sched.plan_cycle(&cur);
    assert_eq!(again.len(), 1);
    assert_eq!(again[0].id, "2");
}

#[test]
fn empty_current_still_replaces_state() {
    // Removals are invisible, but the poll state is still replaced wholly.
    let prev = vec![page("1", "http://x/1"), page("2", "http://x/2")];
    let mut sched = Scheduler::new();
    sched.bootstrap(prev.clone());

    let empty: Vec<Page> = Vec::new();
    let fresh = sched.plan_cycle(&empty);
    assert!(fresh.is_empty());
    sched.commit_cycle(empty);

    // Everything counts as new against the replaced (empty) state.
    let reappeared = sched.plan_cycle(&prev);
    assert_eq!(reappeared.len(), 2);
}

#[test]
fn commit_replaces_wholly() {
    let mut sched = Scheduler::new();
    sched.bootstrap(vec![page("1", "http://x/1")]);
    sched.commit_cycle(vec![page("2", "http://x/2")]);
    // "1" is gone from the state: it would be reported again.
    let fresh = sched.plan_cycle(&vec![page("1", "http://x/1"), page("2", "http://x/2")]);
    assert_eq!(fresh.len(), 1);
    assert_eq!(fresh[0].id, "1");
}
