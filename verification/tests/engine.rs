//! The polling engine: dedup buffer, backoff, recovery, termination.

use std::collections::VecDeque;

use artbutler::content::Post;
use artbutler::curator::Buffer;
use artbutler::poller::{PollAction, PollerState};
use artbutler::reddit::{Listing, Pagination, Subreddit};

fn post(id: &str) -> Post {
    Post::new(
        id.to_string(),
        format!("https://www.reddit.com/r/art/{}", id),
        format!("https://i.example/{}.png", id),
        "author".to_string(),
        format!("Post {}", id),
        (1, 0),
    )
}

fn forward_listing() -> Listing {
    let mut pagination = Pagination::builder();
    pagination.set_cursor(Post::empty());
    pagination.set_limit(2);
    Listing::New { subreddit: Subreddit::from("art".to_string()), paginator: pagination }
}

fn back_listing() -> Listing {
    let mut pagination = Pagination::builder();
    pagination.seek_back();
    pagination.set_cursor(Post::empty());
    pagination.set_limit(2);
    Listing::New { subreddit: Subreddit::from("art".to_string()), paginator: pagination }
}

fn page(ids: &[&str]) -> Option<VecDeque<Post>> {
    Some(ids.iter().map(|id| post(id)).collect())
}

#[test]
fn fresh_forward_poll_emits_in_source_order() {
    let mut poller = PollerState::new(1);
    let listing = forward_listing();
    let (emitted, action) = poller.poll_step(&listing, page(&["1", "2"]));
    assert_eq!(action, PollAction::Immediate);
    assert_eq!(emitted.len(), 2);
    assert_eq!(emitted[0].id, "1");
    assert_eq!(emitted[1].id, "2");
    assert_eq!(poller.sync_interval(), 1);
    assert_eq!(poller.timeout_count(), 0);
}

#[test]
fn back_poll_emits_oldest_first() {
    let mut poller = PollerState::new(1);
    let listing = back_listing();
    let (emitted, action) = poller.poll_step(&listing, page(&["1", "2"]));
    assert_eq!(action, PollAction::Immediate);
    assert_eq!(emitted[0].id, "2");
    assert_eq!(emitted[1].id, "1");
}

#[test]
fn dedup_across_cycles() {
    let mut poller = PollerState::new(1);
    let listing = forward_listing();
    let (first, _) = poller.poll_step(&listing, page(&["1", "2"]));
    assert_eq!(first.iter().map(|p| p.id.clone()).collect::<Vec<_>>(), vec!["1", "2"]);
    let (second, action) = poller.poll_step(&listing, page(&["2", "3"]));
    assert_eq!(second.len(), 1);
    assert_eq!(second[0].id, "3");
    assert_eq!(action, PollAction::Immediate);
}

#[test]
fn idle_backoff_doubles_then_times_out() {
    let mut poller = PollerState::new(1);
    let listing = forward_listing();
    let mut intervals = Vec::new();
    for _ in 0..5 {
        let (emitted, action) = poller.poll_step(&listing, page(&[]));
        assert!(emitted.is_empty());
        match action {
            PollAction::Sleep(secs) => intervals.push(secs),
            other => panic!("expected a sleep, got {:?}", other),
        }
    }
    assert_eq!(intervals, vec![2, 4, 8, 16, 32]);
    assert_eq!(poller.timeout_count(), 0);

    let (_, action) = poller.poll_step(&listing, page(&[]));
    assert_eq!(action, PollAction::Sleep(32));
    assert_eq!(poller.timeout_count(), 1);

    let (_, action) = poller.poll_step(&listing, page(&[]));
    assert_eq!(action, PollAction::Recover(32));
    assert_eq!(poller.timeout_count(), 2);
}

#[test]
fn forward_recovery_resets_backoff_and_continues() {
    let mut poller = PollerState::new(32);
    let listing = forward_listing();
    let (_, action) = poller.poll_step(&listing, page(&[]));
    assert_eq!(action, PollAction::Sleep(32));
    let (_, action) = poller.poll_step(&listing, page(&[]));
    assert_eq!(action, PollAction::Recover(32));

    let emitted = poller.recovery_step(&listing, page(&["9"]).unwrap());
    assert_eq!(emitted.len(), 1);
    assert_eq!(emitted[0].id, "9");
    assert_eq!(poller.sync_interval(), 1);
    assert_eq!(poller.timeout_count(), 0);
}

#[test]
fn back_poller_terminates_after_two_starved_cycles() {
    let mut poller = PollerState::new(32);
    let listing = back_listing();
    let (_, action) = poller.poll_step(&listing, page(&[]));
    assert_eq!(action, PollAction::Sleep(32));
    let (_, action) = poller.poll_step(&listing, page(&[]));
    assert_eq!(action, PollAction::Terminate(32));
}

#[test]
fn retrieval_error_backs_off_without_state_change() {
    let mut poller = PollerState::new(4);
    let listing = forward_listing();
    let (emitted, action) = poller.poll_step(&listing, None);
    assert!(emitted.is_empty());
    assert_eq!(action, PollAction::ErrorBackoff);
    assert_eq!(poller.sync_interval(), 4);

    let (emitted, action) = poller.poll_step(&listing, page(&["1"]));
    assert_eq!(emitted.len(), 1);
    assert_eq!(action, PollAction::Immediate);
    assert_eq!(poller.sync_interval(), 1);
}

#[test]
fn emission_resets_interval_and_timeouts() {
    let mut poller = PollerState::new(32);
    let listing = forward_listing();
    let (_, action) = poller.poll_step(&listing, page(&[]));
    assert_eq!(action, PollAction::Sleep(32));
    assert_eq!(poller.timeout_count(), 1);
    let (emitted, action) = poller.poll_step(&listing, page(&["7"]));
    assert_eq!(emitted.len(), 1);
    assert_eq!(action, PollAction::Immediate);
    assert_eq!(poller.sync_interval(), 1);
    assert_eq!(poller.timeout_count(), 0);
}

#[test]
fn buffer_of_capacity_one_keeps_latest_insert() {
    let mut buffer = Buffer::new(1);
    buffer.insert(post("a"));
    buffer.insert(post("b"));
    assert!(buffer.contains_id(&"b".to_string()));
    assert!(!buffer.contains_id(&"a".to_string()));

    let offered: VecDeque<Post> = [post("a"), post("b")].into_iter().collect();
    let delta = buffer.difference(offered);
    assert_eq!(delta.len(), 1);
    assert_eq!(delta[0].id, "a");
}

#[test]
fn buffer_difference_preserves_order_and_membership() {
    let mut buffer = Buffer::new(10);
    buffer.insert(post("2"));
    let offered: VecDeque<Post> = [post("1"), post("2"), post("3")].into_iter().collect();
    let delta = buffer.difference(offered);
    assert_eq!(delta.iter().map(|p| p.id.clone()).collect::<Vec<_>>(), vec!["1", "3"]);
    assert!(!buffer.is_full());
}
