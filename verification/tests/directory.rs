//! Vault, client directory, aggregators and the command surface.

use artbutler::aggregator::{AddListingError, AggregatorStore, UserAggregator};
use artbutler::artvault::ArtVault;
use artbutler::botclient::{BotClient, ClientID, ClientManager};
use artbutler::content::{Post, SubscribedListing};
use artbutler::reddit::{Listing, Subreddit};
use artbutler::telegram::{
    configuration_cmd_handler, deliver_gate, listen_silence_handler, ConfCommand, SubscribeCommand,
};

fn post(id: &str) -> Post {
    Post::new(
        id.to_string(),
        format!("https://www.reddit.com/r/art/{}", id),
        format!("https://i.example/{}.png", id),
        "author".to_string(),
        format!("Post {}", id),
        (1, 0),
    )
}

fn record(user: i64, sub: &str, cat: &str) -> SubscribedListing {
    SubscribedListing {
        user_id: user,
        subreddit: sub.to_string(),
        category: cat.to_string(),
        head_post_id: None,
    }
}

#[test]
fn vault_save_is_idempotent() {
    let mut vault = ArtVault::instance();
    vault.save(&post("a"));
    assert!(vault.fetch("a").is_some());
    vault.save(&post("a"));
    let found = vault.fetch("a").unwrap();
    assert_eq!(found.id, "a");
    assert!(vault.fetch("b").is_none());
}

#[test]
fn deliver_gate_suppresses_saved_posts() {
    let mut vault = ArtVault::instance();
    let p = post("a");
    assert!(deliver_gate(&vault, &p));
    vault.save(&p);
    assert!(!deliver_gate(&vault, &p));
    assert!(deliver_gate(&vault, &post("b")));
}

#[test]
fn client_manager_caches_and_absorbs_duplicates() {
    let mut mgr = ClientManager::instance(Vec::new());
    let id = ClientID::from(7);
    assert!(mgr.get(id, None).is_none());

    let (cli, fresh) = mgr.add_new_user(id, Some("ann".to_string()), true);
    assert!(fresh);
    assert_eq!(cli.id(), 7);

    let (again, fresh) = mgr.add_new_user(id, Some("other".to_string()), false);
    assert!(!fresh);
    assert_eq!(again.username.as_deref(), Some("ann"));

    let got = mgr.get(id, None).unwrap();
    assert_eq!(got.username.as_deref(), Some("ann"));
}

#[test]
fn client_manager_caches_fetched_rows() {
    let mut mgr = ClientManager::instance(Vec::new());
    let id = ClientID::from(9);
    let row = BotClient { id, username: Some("bob".to_string()), is_user: true };
    let got = mgr.get(id, Some(row)).unwrap();
    assert_eq!(got.username.as_deref(), Some("bob"));
    let cached = mgr.get(id, None).unwrap();
    assert_eq!(cached.username.as_deref(), Some("bob"));
}

#[test]
fn duplicate_subscription_is_refused_without_a_second_poller() {
    let mut aggregator = UserAggregator::new(ClientID::from(1));
    let first = aggregator.add_listing(Listing::from("new", Subreddit::from("art".to_string())));
    let row = first.unwrap();
    assert_eq!(row.user_id, 1);
    assert_eq!(row.subreddit, "art");
    assert_eq!(row.category, "new");
    assert!(row.head_post_id.is_none());
    assert_eq!(aggregator.listings.len(), 1);

    let second = aggregator.add_listing(Listing::from("new", Subreddit::from("art".to_string())));
    assert_eq!(second.unwrap_err(), AddListingError::AlreadySubscribed);
    assert_eq!(aggregator.listings.len(), 1);
    assert_eq!(aggregator.curator.spawned.len(), 1);

    let other = aggregator.add_listing(Listing::from("hot", Subreddit::from("art".to_string())));
    assert!(other.is_ok());
    assert_eq!(aggregator.curator.spawned.len(), 2);
}

#[test]
fn remove_listing_strikes_the_listing_and_its_poller() {
    let mut aggregator = UserAggregator::new(ClientID::from(1));
    aggregator.add_listing(Listing::from("new", Subreddit::from("art".to_string()))).unwrap();
    aggregator.add_listing(Listing::from("hot", Subreddit::from("art".to_string()))).unwrap();

    assert!(aggregator.remove_listing("art", "new"));
    assert_eq!(aggregator.listings.len(), 1);
    assert_eq!(aggregator.curator.spawned.len(), 1);
    assert_eq!(aggregator.curator.spawned[0].1, "hot");

    assert!(!aggregator.remove_listing("art", "new"));
    assert_eq!(aggregator.listings.len(), 1);

    let again = aggregator.add_listing(Listing::from("new", Subreddit::from("art".to_string())));
    assert!(again.is_ok());
    assert_eq!(aggregator.curator.spawned.len(), 2);
}

#[test]
fn aggregator_cache_drains_and_bounds() {
    let mut aggregator = UserAggregator::new(ClientID::from(1));
    for i in 0..7 {
        aggregator.on_received(post(&i.to_string()));
    }
    let drained = aggregator.latest();
    assert_eq!(
        drained.iter().map(|p| p.id.clone()).collect::<Vec<_>>(),
        vec!["2", "3", "4", "5", "6"]
    );
    assert!(aggregator.latest().is_empty());
}

#[test]
fn store_rebuilds_a_user_from_records_once() {
    let mut store = AggregatorStore::instance();
    let user = ClientID::from(4);
    let records = vec![record(4, "art", "new"), record(4, "earthporn", "hot")];

    let idx = store.find(user, &records);
    assert_eq!(store.aggregators[idx].listings.len(), 2);
    assert_eq!(store.aggregators[idx].curator.spawned.len(), 2);

    let again = store.find(user, &records);
    assert_eq!(again, idx);
    assert_eq!(store.aggregators.len(), 1);
    assert_eq!(store.aggregators[idx].curator.spawned.len(), 2);
}

#[test]
fn restart_replays_records_and_vault_suppresses_redelivery() {
    let mut vault = ArtVault::instance();
    vault.save(&post("old1"));

    let mut store = AggregatorStore::instance();
    let records = vec![record(5, "art", "new")];
    let idx = store.find(ClientID::from(5), &records);
    assert_eq!(store.aggregators[idx].listings.len(), 1);

    assert!(!deliver_gate(&vault, &post("old1")));
    assert!(deliver_gate(&vault, &post("new1")));
}

#[test]
fn listen_command_subscribes_then_reports_duplicates() {
    let mut store = AggregatorStore::instance();
    let user = ClientID::from(2);
    let records: Vec<SubscribedListing> = Vec::new();

    let cmd = SubscribeCommand::Listen { subname: "art".to_string(), category: "new".to_string() };
    let (row, reply) = listen_silence_handler(&mut store, user, &records, cmd);
    let row = row.unwrap();
    assert_eq!(row.user_id, 2);
    assert_eq!(row.subreddit, "art");
    assert_eq!(row.category, "new");
    assert!(reply.is_none());

    let cmd = SubscribeCommand::Listen { subname: "art".to_string(), category: "new".to_string() };
    let (row, reply) = listen_silence_handler(&mut store, user, &records, cmd);
    assert!(row.is_none());
    assert_eq!(reply.unwrap(), "Already listening to that listing");

    let cmd = SubscribeCommand::Silence { subname: "art".to_string() };
    let (row, reply) = listen_silence_handler(&mut store, user, &records, cmd);
    assert!(row.is_none() && reply.is_none());
}

#[test]
fn start_command_registers_then_greets() {
    let mut mgr = ClientManager::instance(Vec::new());
    let id = ClientID::from(11);

    let reply = configuration_cmd_handler(
        &mut mgr,
        ConfCommand::Start,
        id,
        Some("ann".to_string()),
        true,
        None,
    );
    assert!(reply.is_none());
    assert_eq!(mgr.existing.len(), 1);

    let reply = configuration_cmd_handler(
        &mut mgr,
        ConfCommand::Start,
        id,
        Some("ann".to_string()),
        true,
        None,
    );
    assert_eq!(reply.unwrap(), "Welcome back, ann!");

    let reply =
        configuration_cmd_handler(&mut mgr, ConfCommand::Help, id, None, true, None);
    assert!(reply.is_none());
}
