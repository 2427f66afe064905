//! The per-listing deduplication buffer: a bounded FIFO of recently seen
//! posts with membership by `id`, used to compute the delta on each poll.

use std::collections::VecDeque;

use vstd::prelude::*;
use vstd::seq_lib::*;

use crate::content::Post;
use crate::reddit::Listing;

verus! {

pub const SYNC_INTERVAL_MAX: u64 = 32;

pub const SYNC_INTERVAL_DEFAULT: u64 = 1;

/// What one `insert` leaves in a buffer of capacity `cap`: the post is
/// appended, and when the buffer is already at capacity the oldest entry
/// is dropped first.
pub open spec fn buffer_insert(s: Seq<Post>, cap: nat, p: Post) -> Seq<Post> {
    if s.len() >= cap {
        s.drop_first().push(p)
    } else {
        s.push(p)
    }
}

/// Membership test the buffer uses: by `id` alone.
pub open spec fn has_id(s: Seq<Post>, id: Seq<char>) -> bool {
    exists|i: int| 0 <= i < s.len() && s[i].id@ == id
}

/// The delta of a response against a buffer: the response filtered to the
/// posts whose `id` is not resident, in response order.
pub open spec fn buffer_difference(resident: Seq<Post>, other: Seq<Post>) -> Seq<Post>
    decreases other.len(),
{
    if other.len() == 0 {
        Seq::<Post>::empty()
    } else {
        let rest = buffer_difference(resident, other.drop_last());
        if has_id(resident, other.last().id@) {
            rest
        } else {
            rest.push(other.last())
        }
    }
}

/// Bounded FIFO of recently observed posts. Capacity is fixed at
/// construction and must be positive.
pub struct Buffer {
    buf: VecDeque<Post>,
    size: usize,
}

impl Buffer {
    /// The posts currently resident, oldest first.
    pub closed spec fn posts(self) -> Seq<Post> {
        self.buf@
    }

    pub closed spec fn capacity(self) -> nat {
        self.size as nat
    }

    pub open spec fn ids(self) -> Seq<Seq<char>> {
        self.posts().map(|i: int, p: Post| p.id@)
    }

    pub open spec fn resident(self, id: Seq<char>) -> bool {
        has_id(self.posts(), id)
    }

    pub open spec fn wf(self) -> bool {
        self.capacity() > 0 && self.posts().len() <= self.capacity()
    }

    pub fn new(len: usize) -> (r: Buffer)
        requires
            len > 0,
        ensures
            r.wf(),
            r.posts() == Seq::<Post>::empty(),
            r.capacity() == len,
    {
        Self { buf: VecDeque::with_capacity(len), size: len }
    }

    pub fn is_full(&self) -> (r: bool)
        ensures
            r == (self.posts().len() >= self.capacity()),
    {
        self.buf.len() >= self.size
    }

    /// Whether a post with this `id` is resident.
    pub fn contains_id(&self, id: &String) -> (r: bool)
        ensures
            r == self.resident(id@),
    {
        let mut i: usize = 0;
        while i < self.buf.len()
            invariant
                i <= self.posts().len(),
                forall|j: int| 0 <= j < i ==> self.posts()[j].id@ != id@,
            decreases self.posts().len() - i,
        {
            if self.buf[i].id == *id {
                return true;
            }
            i += 1;
        }
        false
    }

    /// The posts of `other` that are not resident, in input order.
    pub fn difference(&self, other: VecDeque<Post>) -> (r: Vec<Post>)
        ensures
            r@ == buffer_difference(self.posts(), other@),
    {
        let mut diff: Vec<Post> = Vec::new();
        let mut i: usize = 0;
        while i < other.len()
            invariant
                i <= other@.len(),
                diff@ == buffer_difference(self.posts(), other@.take(i as int)),
            decreases other@.len() - i,
        {
            let p = &other[i];
            proof {
                let upto = other@.take(i as int + 1);
                assert(upto.drop_last() =~= other@.take(i as int));
                assert(upto.last() == other@[i as int]);
            }
            if !self.contains_id(&p.id) {
                diff.push(p.clone());
            }
            i += 1;
        }
        proof {
            assert(other@.take(other@.len() as int) =~= other@);
        }
        diff
    }

    /// Append `p`; at capacity the oldest resident post is evicted first.
    pub fn insert(&mut self, p: Post)
        requires
            old(self).wf(),
        ensures
            final(self).wf(),
            final(self).capacity() == old(self).capacity(),
            final(self).posts() == buffer_insert(old(self).posts(), old(self).capacity(), p),
    {
        if self.is_full() {
            self.buf.push_back(p);
            self.buf.pop_front();
            proof {
                assert(self.posts() =~= buffer_insert(old(self).posts(), old(self).capacity(), p));
            }
            return;
        }
        self.buf.push_back(p);
    }
}

/// Every post of a computed delta was absent from the buffer, and the delta
/// carries no duplicate `id`s drawn from the same response slot: the delta
/// is exactly the non-resident part of the response, order kept.
pub proof fn lemma_difference_excludes_resident(resident: Seq<Post>, other: Seq<Post>, i: int)
    requires
        0 <= i < buffer_difference(resident, other).len(),
    ensures
        !has_id(resident, buffer_difference(resident, other)[i].id@),
        other.contains(buffer_difference(resident, other)[i]),
    decreases other.len(),
{
    let diff = buffer_difference(resident, other);
    let rest = buffer_difference(resident, other.drop_last());
    if i < rest.len() {
        lemma_difference_excludes_resident(resident, other.drop_last(), i);
        let j = choose|j: int| 0 <= j < other.drop_last().len() && other.drop_last()[j] == rest[i];
        assert(other[j] == diff[i]);
    } else {
        assert(diff[i] == other.last());
        assert(other[other.len() - 1] == other.last());
    }
}

/// A buffer of capacity 1 retains only the most recent insert.
pub proof fn lemma_capacity_one_keeps_latest(s: Seq<Post>, p: Post, q: Post)
    requires
        s.len() <= 1,
    ensures
        buffer_insert(buffer_insert(s, 1, p), 1, q) =~= seq![q],
{
}

/// Capacity of the outbound channel all of one user's pollers feed.
pub const CURATOR_CHANNEL_CAPACITY: usize = 5;

/// Per-user owner of the polling tasks: the registry of pollers it has
/// spawned, one per subscription, keyed by community and category. The
/// tasks themselves and the bounded outbound channel they all feed live
/// with the surrounding program.
pub struct Curator {
    pub spawned: Vec<(String, String)>,
}

impl Curator {
    /// The subscription keys of the spawned pollers, in spawn order.
    pub open spec fn keys(self) -> Seq<(Seq<char>, Seq<char>)> {
        self.spawned@.map(|i: int, p: (String, String)| (p.0@, p.1@))
    }

    pub fn from() -> (r: Curator)
        ensures
            r.keys() == Seq::<(Seq<char>, Seq<char>)>::empty(),
    {
        let r = Curator { spawned: Vec::new() };
        proof {
            assert(r.keys() =~= Seq::<(Seq<char>, Seq<char>)>::empty());
        }
        r
    }

    /// Record the poller spawned for a listing.
    pub fn spawn_for(&mut self, listing: &Listing)
        ensures
            final(self).keys() == old(self).keys().push(listing.key()),
    {
        let name = listing.subreddit().name();
        let tag = listing.listing_tag().to_owned();
        self.spawned.push((name, tag));
        proof {
            assert(self.keys() =~= old(self).keys().push(listing.key()));
        }
    }

    /// Strike the poller at a position from the registry, as an
    /// unsubscribe or an aborted subscription does.
    pub fn drop_poller(&mut self, i: usize)
        requires
            i < old(self).keys().len(),
        ensures
            final(self).keys() == old(self).keys().remove(i as int),
    {
        self.spawned.remove(i);
        proof {
            assert(self.keys() =~= old(self).keys().remove(i as int));
        }
    }
}

} // verus!
