//! The command surface: what each inbound user command does to the
//! subscription state, and the delivery gate consulted before a post is
//! forwarded. The messaging transport itself stays outside the library
//! and hands in plain values.

use vstd::prelude::*;

use crate::aggregator::AggregatorStore;
use crate::artvault::ArtVault;
use crate::botclient::{has_client, BotClient, ClientID, ClientManager};
use crate::content::{NewlySubscribedListing, Post, SubscribedListing};
use crate::reddit::{valid_listing_name, Listing, Subreddit};
use crate::strutil::str_eq;

verus! {

/// The configuration commands.
pub enum ConfCommand {
    /// Initialize the bot for the sender.
    Start,
    /// Show help.
    Help,
    /// User settings.
    Settings,
}

/// The subscription commands.
pub enum SubscribeCommand {
    /// `/listen <community> <category>`.
    Listen { subname: String, category: String },
    /// `/silence <community>`.
    Silence { subname: String },
}

/// The greeting a returning user sees.
pub open spec fn welcome_message(username: Option<String>) -> Seq<char> {
    match username {
        Option::Some(name) => "Welcome back, "@ + name@ + "!"@,
        Option::None => "Welcome back!"@,
    }
}

fn welcome(username: &Option<String>) -> (r: String)
    ensures
        r@ == welcome_message(*username),
{
    match username {
        Option::Some(name) => {
            let mut s = String::new();
            s.append("Welcome back, ");
            s.append(name.as_str());
            s.append("!");
            proof {
                assert(s@ =~= welcome_message(*username));
            }
            s
        },
        Option::None => {
            let s = String::from_str("Welcome back!");
            s
        },
    }
}

/// Handle a configuration command for the sender: `Start` greets a user
/// the directory knows — cached, or found in the loaded row — and
/// registers an unknown one; the other commands do nothing. The
/// returned string, if any, is the reply to send.
pub fn configuration_cmd_handler(
    cli_mgr: &mut ClientManager,
    cmd: ConfCommand,
    id: ClientID,
    username: Option<String>,
    is_user: bool,
    fetched: Option<BotClient>,
) -> (r: Option<String>)
    requires
        old(cli_mgr).wf(),
        fetched is Some ==> fetched.unwrap().id == id,
    ensures
        final(cli_mgr).wf(),
        cmd is Help || cmd is Settings ==> *final(cli_mgr) == *old(cli_mgr) && r is None,
        cmd is Start ==> {
            let known = has_client(old(cli_mgr).existing@, id) || fetched is Some;
            &&& (r is Some <==> known)
            &&& (!known ==> final(cli_mgr).existing@ == old(cli_mgr).existing@.push(
                BotClient { id, username, is_user },
            ))
            &&& (has_client(old(cli_mgr).existing@, id) ==> forall|i: int|
                0 <= i < old(cli_mgr).existing@.len() && (#[trigger] old(
                    cli_mgr,
                ).existing@[i]).id == id ==> r.unwrap()@ == welcome_message(
                    old(cli_mgr).existing@[i].username,
                ))
            &&& (!has_client(old(cli_mgr).existing@, id) && fetched is Some ==> r.unwrap()@
                == welcome_message(fetched.unwrap().username))
        },
{
    match cmd {
        ConfCommand::Start => {
            match cli_mgr.get(id, fetched) {
                Option::Some(registered) => Option::Some(welcome(&registered.username)),
                Option::None => {
                    cli_mgr.add(BotClient { id, username, is_user });
                    Option::None
                },
            }
        },
        ConfCommand::Help => Option::None,
        ConfCommand::Settings => Option::None,
    }
}

/// Whether a string names a category a listing can be built from.
pub fn is_valid_listing_name(name: &str) -> (r: bool)
    ensures
        r == valid_listing_name(name@),
{
    str_eq(name, "hot") || str_eq(name, "new") || str_eq(name, "rising") || str_eq(name, "sort")
        || str_eq(name, "random")
}

/// Handle a subscription command for the sender, whose loaded
/// subscription rows are `records` in case the aggregator must be
/// rebuilt. `/listen` subscribes: the returned row, if any, is to be
/// persisted; the returned string, if any, is the reply to send — a
/// duplicate subscription is absorbed and only answered. `/silence` is
/// accepted and changes nothing here.
pub fn listen_silence_handler(
    store: &mut AggregatorStore,
    user: ClientID,
    records: &Vec<SubscribedListing>,
    cmd: SubscribeCommand,
) -> (r: (Option<NewlySubscribedListing>, Option<String>))
    requires
        old(store).wf(),
        cmd matches SubscribeCommand::Listen { subname, category } ==> valid_listing_name(
            category@,
        ),
        forall|i: int|
            0 <= i < records@.len() ==> valid_listing_name((#[trigger] records@[i]).category@),
        crate::aggregator::distinct_keys(crate::aggregator::record_keys(records@)),
    ensures
        final(store).wf(),
        cmd matches SubscribeCommand::Silence { subname } ==> *final(store) == *old(store) && r.0
            is None && r.1 is None,
        cmd matches SubscribeCommand::Listen { subname, category } ==> {
            &&& final(store).has_user(user)
            &&& (r.0 is Some <==> r.1 is None)
            &&& (r.1 is Some <==> crate::aggregator::duplicate_subscription(
                *old(store),
                user,
                records@,
                (subname@, category@),
            ))
            &&& (r.1 is Some ==> r.1.unwrap()@ == "Already listening to that listing"@)
            &&& (r.0 is Some ==> r.0.unwrap().user_id == user.0 && r.0.unwrap().subreddit@
                == subname@ && r.0.unwrap().category@ == category@ && r.0.unwrap().head_post_id
                is None)
            &&& ({
                let aggs = final(store).aggregators@;
                exists|i: int|
                    0 <= i < aggs.len() && (#[trigger] aggs[i]).id == user && aggs[i].has_listing(
                        (subname@, category@),
                    )
            })
        },
{
    match cmd {
        SubscribeCommand::Listen { subname, category } => {
            let ghost key = (subname@, category@);
            let listing = Listing::from(category.as_str(), Subreddit::from(subname));
            let idx = store.find(user, records);
            let ghost mid = store.aggregators@;
            let aggregator = &mut store.aggregators[idx];
            let ghost pre = *aggregator;
            let added = aggregator.add_listing(listing);
            proof {
                assert(pre == mid[idx as int]);
                if old(store).has_user(user) {
                    if pre.has_listing(key) {
                        assert(crate::aggregator::duplicate_subscription(
                            *old(store),
                            user,
                            records@,
                            key,
                        )) by {
                            assert(old(store).aggregators@[idx as int].id == user
                                && old(store).aggregators@[idx as int].has_listing(key));
                        }
                    }
                    if crate::aggregator::duplicate_subscription(*old(store), user, records@, key) {
                        let w = choose|i: int|
                            0 <= i < old(store).aggregators@.len() && (#[trigger] old(
                                store,
                            ).aggregators@[i]).id == user && old(store).aggregators@[i].has_listing(
                                key,
                            );
                        assert(w == idx);
                        assert(pre.has_listing(key));
                    }
                }
            }
            match added {
                Result::Ok(record) => {
                    proof {
                        assert(final(aggregator).listing_keys().last() == (subname@, category@));
                    }
                    (Option::Some(record), Option::None)
                },
                Result::Err(_) => (
                    Option::None,
                    Option::Some(String::from_str("Already listening to that listing")),
                ),
            }
        },
        SubscribeCommand::Silence { subname } => (Option::None, Option::None),
    }
}

/// Consulted before a post goes out to the messaging collaborator:
/// deliver only when no delivery record with its id exists yet. After a
/// successful send the caller saves the post, so a record exists
/// immediately after every delivery.
pub fn deliver_gate(vault: &ArtVault, post: &Post) -> (r: bool)
    ensures
        r == !vault.contains_id(post.id@),
{
    vault.fetch(post.id.as_str()).is_none()
}

} // verus!
