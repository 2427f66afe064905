//! Per-user aggregation: the object that owns one user's curator and
//! subscriptions, and the store that directs users to their aggregator.
//!
//! Persisting subscription rows is the surrounding program's part: a
//! successful `add_listing` hands back the row to flush, and `find`
//! takes the rows loaded for a user and replays them.

use std::collections::VecDeque;

use vstd::prelude::*;

use crate::botclient::ClientID;
use crate::content::{NewlySubscribedListing, Post, SubscribedListing};
use crate::curator::{buffer_insert, Curator};
use crate::reddit::{valid_listing_name, Listing, Subreddit};
use crate::strutil::str_eq;

verus! {

/// How many recently received posts an aggregator keeps for retrieval.
pub const AGGREGATOR_CACHE_CAPACITY: usize = 5;

/// Why an `add_listing` was refused.
#[derive(PartialEq, Eq, Structural, Clone, Copy, Debug)]
pub enum AddListingError {
    /// The user already subscribes to this community and category: the
    /// persistent row's unique violation, absorbed.
    AlreadySubscribed,
}

/// The subscription keys of loaded rows, in row order.
pub open spec fn record_keys(rs: Seq<SubscribedListing>) -> Seq<(Seq<char>, Seq<char>)> {
    rs.map(|i: int, r: SubscribedListing| (r.subreddit@, r.category@))
}

/// No subscription key twice.
pub open spec fn distinct_keys(ks: Seq<(Seq<char>, Seq<char>)>) -> bool {
    forall|i: int, j: int| 0 <= i < j < ks.len() ==> ks[i] != ks[j]
}

/// The per-user lifecycle object: the curator with its pollers, the
/// subscribed listings, and a short cache of recently received posts.
pub struct UserAggregator {
    pub id: ClientID,
    pub curator: Curator,
    pub listings: VecDeque<Listing>,
    pub cache: VecDeque<Post>,
}

impl UserAggregator {
    /// The subscription keys, in subscription order.
    pub open spec fn listing_keys(self) -> Seq<(Seq<char>, Seq<char>)> {
        self.listings@.map(|i: int, l: Listing| l.key())
    }

    pub open spec fn has_listing(self, k: (Seq<char>, Seq<char>)) -> bool {
        self.listing_keys().contains(k)
    }

    /// No duplicate subscription, and exactly one spawned poller per
    /// subscription.
    pub open spec fn wf(self) -> bool {
        &&& distinct_keys(self.listing_keys())
        &&& self.curator.keys() == self.listing_keys()
    }

    pub fn new(id: ClientID) -> (r: UserAggregator)
        ensures
            r.wf(),
            r.id == id,
            r.listings@ == Seq::<Listing>::empty(),
            r.cache@ == Seq::<Post>::empty(),
    {
        let r = UserAggregator {
            id,
            curator: Curator::from(),
            listings: VecDeque::new(),
            cache: VecDeque::new(),
        };
        proof {
            assert(r.listing_keys() =~= Seq::<(Seq<char>, Seq<char>)>::empty());
        }
        r
    }

    fn position_of_key(&self, name: &str, tag: &str) -> (r: Option<usize>)
        ensures
            match r {
                Option::Some(i) => i < self.listing_keys().len() && self.listing_keys()[i as int]
                    == (name@, tag@),
                Option::None => !self.has_listing((name@, tag@)),
            },
    {
        let mut i: usize = 0;
        while i < self.listings.len()
            invariant
                i <= self.listings@.len(),
                forall|j: int| 0 <= j < i ==> (#[trigger] self.listing_keys()[j]) != (name@, tag@),
            decreases self.listings@.len() - i,
        {
            let listing = &self.listings[i];
            let sub = listing.subreddit().name();
            if str_eq(sub.as_str(), name) && str_eq(listing.listing_tag(), tag) {
                return Option::Some(i);
            }
            i += 1;
        }
        proof {
            if self.has_listing((name@, tag@)) {
                let j = choose|j: int|
                    0 <= j < self.listing_keys().len() && self.listing_keys()[j] == (name@, tag@);
                assert(self.listing_keys()[j] != (name@, tag@));
            }
        }
        Option::None
    }

    /// Subscribe this user to a listing: remember it, spawn its poller,
    /// and hand back the row to persist. Subscribing twice to the same
    /// community and category is refused with the state untouched — the
    /// persistent row's unique violation, reported as already
    /// subscribed.
    pub fn add_listing(&mut self, new_listing: Listing) -> (r: Result<
        NewlySubscribedListing,
        AddListingError,
    >)
        requires
            old(self).wf(),
        ensures
            final(self).wf(),
            final(self).id == old(self).id,
            final(self).cache == old(self).cache,
            r is Err <==> old(self).has_listing(new_listing.key()),
            r is Err ==> *final(self) == *old(self) && r == Result::<
                NewlySubscribedListing,
                AddListingError,
            >::Err(AddListingError::AlreadySubscribed),
            r is Ok ==> {
                &&& final(self).listings@ == old(self).listings@.push(new_listing)
                &&& final(self).curator.keys() == old(self).curator.keys().push(new_listing.key())
                &&& r.unwrap().user_id == old(self).id.0
                &&& r.unwrap().subreddit@ == new_listing.key().0
                &&& r.unwrap().category@ == new_listing.key().1
                &&& r.unwrap().head_post_id is None
            },
    {
        let name = new_listing.subreddit().name();
        let tag = new_listing.listing_tag().to_owned();
        match self.position_of_key(name.as_str(), tag.as_str()) {
            Option::Some(_) => Result::Err(AddListingError::AlreadySubscribed),
            Option::None => {
                let record = NewlySubscribedListing {
                    user_id: self.id.id(),
                    subreddit: name,
                    category: tag,
                    head_post_id: Option::None,
                };
                self.curator.spawn_for(&new_listing);
                self.listings.push_back(new_listing);
                proof {
                    assert(self.listing_keys() =~= old(self).listing_keys().push(
                        new_listing.key(),
                    ));
                }
                Result::Ok(record)
            },
        }
    }

    /// Unsubscribe this user from a community and category: the listing
    /// and its poller's registry entry go away together. Nothing changes
    /// when no such subscription exists.
    pub fn remove_listing(&mut self, name: &str, tag: &str) -> (r: bool)
        requires
            old(self).wf(),
        ensures
            final(self).wf(),
            final(self).id == old(self).id,
            final(self).cache == old(self).cache,
            r == old(self).has_listing((name@, tag@)),
            !r ==> *final(self) == *old(self),
            r ==> exists|i: int|
                0 <= i < old(self).listing_keys().len() && (#[trigger] old(self).listing_keys()[i])
                    == (name@, tag@) && final(self).listings@ == old(self).listings@.remove(i)
                    && final(self).curator.keys() == old(self).curator.keys().remove(i),
    {
        match self.position_of_key(name, tag) {
            Option::Some(i) => {
                self.listings.remove(i);
                self.curator.drop_poller(i);
                proof {
                    assert(self.listing_keys() =~= old(self).listing_keys().remove(i as int));
                    assert(old(self).listing_keys()[i as int] == (name@, tag@));
                    assert forall|a: int, b: int|
                        0 <= a < b < self.listing_keys().len() implies self.listing_keys()[a]
                        != self.listing_keys()[b] by {
                        let olds = old(self).listing_keys();
                        let oa = if a < i { a } else { a + 1 };
                        let ob = if b < i { b } else { b + 1 };
                        assert(self.listing_keys()[a] == olds[oa]);
                        assert(self.listing_keys()[b] == olds[ob]);
                    }
                }
                true
            },
            Option::None => false,
        }
    }

    /// Drain and return the cached posts; empty again until new posts
    /// arrive.
    pub fn latest(&mut self) -> (r: Vec<Post>)
        requires
            old(self).wf(),
        ensures
            final(self).wf(),
            r@ == old(self).cache@,
            final(self).cache@ == Seq::<Post>::empty(),
            final(self).id == old(self).id,
            final(self).listings == old(self).listings,
            final(self).curator == old(self).curator,
    {
        let mut buf: Vec<Post> = Vec::new();
        loop
            invariant
                old(self).wf(),
                old(self).cache@ == buf@ + self.cache@,
                self.id == old(self).id,
                self.listings == old(self).listings,
                self.curator == old(self).curator,
            decreases self.cache@.len(),
        {
            match self.cache.pop_front() {
                Option::Some(post) => {
                    buf.push(post);
                },
                Option::None => {
                    return buf;
                },
            }
        }
    }

    /// One step of the listen loop: a post received from the curator's
    /// channel enters the bounded cache, evicting the oldest entry at
    /// capacity.
    pub fn on_received(&mut self, post: Post)
        requires
            old(self).wf(),
        ensures
            final(self).wf(),
            final(self).cache@ == buffer_insert(
                old(self).cache@,
                AGGREGATOR_CACHE_CAPACITY as nat,
                post,
            ),
            final(self).id == old(self).id,
            final(self).listings == old(self).listings,
            final(self).curator == old(self).curator,
    {
        if self.cache.len() >= AGGREGATOR_CACHE_CAPACITY {
            self.cache.push_back(post);
            self.cache.pop_front();
            proof {
                assert(self.cache@ =~= buffer_insert(
                    old(self).cache@,
                    AGGREGATOR_CACHE_CAPACITY as nat,
                    post,
                ));
            }
        } else {
            self.cache.push_back(post);
        }
    }
}

/// Whether a subscribe for `key` by `user` hits an existing
/// subscription: the user's live aggregator already holds it, or — when
/// the user has no aggregator yet — the loaded rows that would rebuild
/// it carry it.
pub open spec fn duplicate_subscription(
    store: AggregatorStore,
    user: ClientID,
    records: Seq<SubscribedListing>,
    key: (Seq<char>, Seq<char>),
) -> bool {
    if store.has_user(user) {
        exists|i: int|
            0 <= i < store.aggregators@.len() && (#[trigger] store.aggregators@[i]).id == user
                && store.aggregators@[i].has_listing(key)
    } else {
        record_keys(records).contains(key)
    }
}

/// Law: a well-formed aggregator runs at most one poller per
/// subscription record — no two spawned pollers share a key.
pub proof fn lemma_one_poller_per_subscription(a: UserAggregator, i: int, j: int)
    requires
        a.wf(),
        0 <= i < j < a.curator.keys().len(),
    ensures
        a.curator.keys()[i] != a.curator.keys()[j],
{
}

/// Directory of user aggregators, one per user.
pub struct AggregatorStore {
    pub aggregators: Vec<UserAggregator>,
}

impl AggregatorStore {
    pub open spec fn wf(self) -> bool {
        &&& forall|i: int|
            0 <= i < self.aggregators@.len() ==> (#[trigger] self.aggregators@[i]).wf()
        &&& forall|i: int, j: int|
            0 <= i < j < self.aggregators@.len() ==> (#[trigger] self.aggregators@[i].id) != (
            #[trigger] self.aggregators@[j].id)
    }

    pub open spec fn has_user(self, id: ClientID) -> bool {
        exists|i: int| 0 <= i < self.aggregators@.len() && (#[trigger] self.aggregators@[i].id)
            == id
    }

    pub fn instance() -> (r: AggregatorStore)
        ensures
            r.wf(),
            r.aggregators@ == Seq::<UserAggregator>::empty(),
    {
        AggregatorStore { aggregators: Vec::new() }
    }

    fn position_of(&self, id: ClientID) -> (r: Option<usize>)
        ensures
            match r {
                Option::Some(i) => i < self.aggregators@.len() && self.aggregators@[i as int].id
                    == id,
                Option::None => !self.has_user(id),
            },
    {
        let mut i: usize = 0;
        while i < self.aggregators.len()
            invariant
                i <= self.aggregators@.len(),
                forall|j: int| 0 <= j < i ==> (#[trigger] self.aggregators@[j].id) != id,
            decreases self.aggregators@.len() - i,
        {
            if self.aggregators[i].id.0 == id.0 {
                return Option::Some(i);
            }
            i += 1;
        }
        Option::None
    }

    /// The index of this user's aggregator: the existing one untouched —
    /// repeated calls share the handle and spawn nothing — or a fresh
    /// one built by replaying the user's loaded subscription rows.
    pub fn find(&mut self, id: ClientID, records: &Vec<SubscribedListing>) -> (r: usize)
        requires
            old(self).wf(),
            forall|i: int|
                0 <= i < records@.len() ==> valid_listing_name(
                    (#[trigger] records@[i]).category@,
                ),
            distinct_keys(record_keys(records@)),
        ensures
            final(self).wf(),
            r < final(self).aggregators@.len(),
            final(self).aggregators@[r as int].id == id,
            old(self).has_user(id) ==> *final(self) == *old(self),
            !old(self).has_user(id) ==> {
                &&& final(self).aggregators@.len() == old(self).aggregators@.len() + 1
                &&& r == old(self).aggregators@.len()
                &&& final(self).aggregators@[r as int].listing_keys() == record_keys(records@)
                &&& final(self).aggregators@[r as int].cache@ == Seq::<Post>::empty()
                &&& forall|i: int|
                    0 <= i < old(self).aggregators@.len() ==> final(self).aggregators@[i] == (
                    #[trigger] old(self).aggregators@[i])
            },
    {
        if let Option::Some(i) = self.position_of(id) {
            return i;
        }
        let mut aggregator = UserAggregator::new(id);
        let mut i: usize = 0;
        while i < records.len()
            invariant
                aggregator.wf(),
                aggregator.id == id,
                aggregator.cache@ == Seq::<Post>::empty(),
                i <= records@.len(),
                aggregator.listing_keys() == record_keys(records@).take(i as int),
                forall|k: int|
                    0 <= k < records@.len() ==> valid_listing_name(
                        (#[trigger] records@[k]).category@,
                    ),
                distinct_keys(record_keys(records@)),
            decreases records@.len() - i,
        {
            let record = &records[i];
            let listing = Listing::from(
                record.category.as_str(),
                Subreddit::from(record.subreddit.clone()),
            );
            proof {
                assert(record_keys(records@)[i as int] == (record.subreddit@, record.category@));
            }
            match aggregator.add_listing(listing) {
                Result::Ok(_) => {},
                Result::Err(_) => {
                    proof {
                        let k = choose|k: int|
                            0 <= k < aggregator.listing_keys().len()
                                && aggregator.listing_keys()[k] == listing.key();
                        assert(record_keys(records@)[k] == record_keys(records@)[i as int]);
                    }
                    unreached()
                },
            }
            proof {
                assert(aggregator.listing_keys() =~= record_keys(records@).take(i as int + 1));
            }
            i += 1;
        }
        proof {
            assert(record_keys(records@).take(records@.len() as int) =~= record_keys(records@));
        }
        let r = self.aggregators.len();
        self.aggregators.push(aggregator);
        r
    }
}

} // verus!
