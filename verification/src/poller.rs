//! The adaptive-backoff polling state machine of one subscription.
//!
//! One poller perpetually polls one listing descriptor. Each cycle hands
//! the outcome of the retrieval to `poll_step`, which computes the posts
//! to emit, updates the dedup buffer and the backoff counters, and says
//! what to do next: poll again at once, sleep, retry after an error,
//! run the forward recovery, or terminate. The surrounding task performs
//! the retrievals, sends, sleeps and cursor resets it is told to.

use std::collections::VecDeque;

use vstd::prelude::*;

use crate::content::Post;
use crate::curator::{
    buffer_difference, buffer_insert, has_id, Buffer, SYNC_INTERVAL_DEFAULT, SYNC_INTERVAL_MAX,
};
use crate::reddit::{Listing, Seek};

verus! {

/// What the polling task does after one cycle.
#[derive(PartialEq, Eq, Structural, Clone, Copy, Debug)]
pub enum PollAction {
    /// New posts were emitted: poll again at once.
    Immediate,
    /// The retrieval failed: sleep ten seconds, then poll again.
    ErrorBackoff,
    /// Nothing new: sleep this many seconds, then poll again.
    Sleep(u64),
    /// Idle too long while seeking forward: sleep, reset the cursor to
    /// the sentinel, retrieve once more and hand the page to
    /// `recovery_step`.
    Recover(u64),
    /// Idle too long while seeking back: sleep, then stop polling.
    Terminate(u64),
}

/// The ids of a sequence of posts, in order.
pub open spec fn ids_of(s: Seq<Post>) -> Seq<Seq<char>> {
    s.map(|i: int, p: Post| p.id@)
}

/// No id occurs twice.
pub open spec fn distinct_ids(ids: Seq<Seq<char>>) -> bool {
    forall|i: int, j: int| 0 <= i < j < ids.len() ==> ids[i] != ids[j]
}

/// The emission order of a returned page: Forward keeps source order
/// (newest first), Back reverses it so the oldest is emitted first.
pub open spec fn ordered_page(page: Seq<Post>, forward: bool) -> Seq<Post> {
    if forward {
        page
    } else {
        page.reverse()
    }
}

/// The buffer contents after inserting a batch in order.
pub open spec fn insert_all(s: Seq<Post>, cap: nat, batch: Seq<Post>) -> Seq<Post>
    decreases batch.len(),
{
    if batch.len() == 0 {
        s
    } else {
        buffer_insert(insert_all(s, cap, batch.drop_last()), cap, batch.last())
    }
}

/// A backoff interval the machine can be in: a power of two from one
/// to `SYNC_INTERVAL_MAX`.
pub open spec fn valid_interval(si: int) -> bool {
    si == 1 || si == 2 || si == 4 || si == 8 || si == 16 || si == 32
}

/// The doubled, capped interval after an empty cycle.
pub open spec fn next_interval(si: int) -> int {
    if 2 * si >= SYNC_INTERVAL_MAX {
        SYNC_INTERVAL_MAX as int
    } else {
        2 * si
    }
}

/// The mathematical state of one poller.
pub ghost struct PollerModel {
    /// Posts resident in the dedup buffer, oldest first.
    pub resident: Seq<Post>,
    /// Capacity of the dedup buffer.
    pub capacity: nat,
    /// Seconds to wait after an empty cycle.
    pub sync_interval: int,
    /// Empty cycles seen while already at the interval cap.
    pub timeout_count: int,
    /// Ids of every post this poller ever emitted, in emission order.
    pub emitted: Seq<Seq<char>>,
}

/// The dedup buffer holds exactly the most recently emitted ids: all of
/// them while fewer than `cap` posts were ever emitted, the last `cap`
/// of them afterwards.
pub open spec fn tracks(resident: Seq<Post>, cap: nat, emitted: Seq<Seq<char>>) -> bool {
    &&& resident.len() == if emitted.len() <= cap {
        emitted.len() as int
    } else {
        cap as int
    }
    &&& ids_of(resident) == emitted.skip(emitted.len() - resident.len())
}

impl PollerModel {
    pub open spec fn wf(self) -> bool {
        &&& self.capacity > 0
        &&& self.resident.len() <= self.capacity
        &&& valid_interval(self.sync_interval)
        &&& 0 <= self.timeout_count <= 2
        &&& tracks(self.resident, self.capacity, self.emitted)
    }
}

/// One poll cycle: what is emitted, the state afterwards, and what the
/// task does next.
pub open spec fn poll_transition(m: PollerModel, forward: bool, result: Option<Seq<Post>>) -> (
    PollerModel,
    Seq<Post>,
    PollAction,
) {
    match result {
        Option::None => (m, Seq::<Post>::empty(), PollAction::ErrorBackoff),
        Option::Some(page) => {
            let delta = buffer_difference(m.resident, ordered_page(page, forward));
            if delta.len() > 0 {
                (
                    PollerModel {
                        resident: insert_all(m.resident, m.capacity, delta),
                        sync_interval: SYNC_INTERVAL_DEFAULT as int,
                        timeout_count: 0,
                        emitted: m.emitted + ids_of(delta),
                        ..m
                    },
                    delta,
                    PollAction::Immediate,
                )
            } else if m.sync_interval < SYNC_INTERVAL_MAX {
                let next = PollerModel { sync_interval: next_interval(m.sync_interval), ..m };
                (next, Seq::<Post>::empty(), PollAction::Sleep(next.sync_interval as u64))
            } else {
                let next = PollerModel { timeout_count: m.timeout_count + 1, ..m };
                if next.timeout_count == 2 {
                    if forward {
                        (next, Seq::<Post>::empty(), PollAction::Recover(SYNC_INTERVAL_MAX))
                    } else {
                        (next, Seq::<Post>::empty(), PollAction::Terminate(SYNC_INTERVAL_MAX))
                    }
                } else {
                    (next, Seq::<Post>::empty(), PollAction::Sleep(SYNC_INTERVAL_MAX))
                }
            }
        },
    }
}

/// The forward recovery cycle: the cursor was reset to the sentinel and
/// one more page retrieved; its delta is emitted and the backoff state
/// starts over.
pub open spec fn recovery_transition(m: PollerModel, forward: bool, page: Seq<Post>) -> (
    PollerModel,
    Seq<Post>,
) {
    let delta = buffer_difference(m.resident, ordered_page(page, forward));
    (
        PollerModel {
            resident: insert_all(m.resident, m.capacity, delta),
            sync_interval: SYNC_INTERVAL_DEFAULT as int,
            timeout_count: 0,
            emitted: m.emitted + ids_of(delta),
            ..m
        },
        delta,
    )
}

/// The mutable state one polling task owns.
pub struct PollerState {
    buffer: Buffer,
    sync_interval: u64,
    timeout_count: u64,
    emitted: Ghost<Seq<Seq<char>>>,
}

/// Capacity of each poller's dedup buffer.
pub const DEDUP_CAPACITY: usize = 100;

impl PollerState {
    pub closed spec fn model(self) -> PollerModel {
        PollerModel {
            resident: self.buffer.posts(),
            capacity: self.buffer.capacity(),
            sync_interval: self.sync_interval as int,
            timeout_count: self.timeout_count as int,
            emitted: self.emitted@,
        }
    }

    pub open spec fn wf(self) -> bool {
        self.model().wf()
    }

    /// A fresh poller: empty dedup buffer of the fixed capacity, the
    /// given starting interval, no timeouts, nothing emitted.
    pub fn new(sync_interval: u64) -> (r: PollerState)
        requires
            valid_interval(sync_interval as int),
        ensures
            r.wf(),
            r.model().resident == Seq::<Post>::empty(),
            r.model().capacity == DEDUP_CAPACITY as nat,
            r.model().sync_interval == sync_interval as int,
            r.model().timeout_count == 0,
            r.model().emitted == Seq::<Seq<char>>::empty(),
    {
        let r = PollerState {
            buffer: Buffer::new(DEDUP_CAPACITY),
            sync_interval,
            timeout_count: 0,
            emitted: Ghost(Seq::empty()),
        };
        proof {
            assert(ids_of(r.buffer.posts()) =~= r.emitted@.skip(0));
        }
        r
    }

    pub fn sync_interval(&self) -> (r: u64)
        ensures
            r as int == self.model().sync_interval,
    {
        self.sync_interval
    }

    pub fn timeout_count(&self) -> (r: u64)
        ensures
            r as int == self.model().timeout_count,
    {
        self.timeout_count
    }

    /// One poll cycle over the outcome of a retrieval: `None` when the
    /// retrieval failed, `Some(page)` with the page in source order. The
    /// returned posts are the ones to send downstream, in order.
    pub fn poll_step(&mut self, listing: &Listing, result: Option<VecDeque<Post>>) -> (r: (
        Vec<Post>,
        PollAction,
    ))
        requires
            old(self).wf(),
            old(self).model().timeout_count < 2,
            !listing.is_random(),
        ensures
            final(self).wf(),
            ({
                let (next, emitted, action) = poll_transition(
                    old(self).model(),
                    listing.pag().is_forward(),
                    match result {
                        Option::Some(page) => Option::Some(page@),
                        Option::None => Option::None,
                    },
                );
                &&& final(self).model() == next
                &&& r.0@ == emitted
                &&& r.1 == action
            }),
    {
        let forward = self.read_direction(listing);
        match result {
            Option::None => (Vec::new(), PollAction::ErrorBackoff),
            Option::Some(page) => {
                let ordered = if forward {
                    page
                } else {
                    reverse_deque(page)
                };
                let delta = self.buffer.difference(ordered);
                if delta.len() > 0 {
                    self.absorb(&delta);
                    self.sync_interval = SYNC_INTERVAL_DEFAULT;
                    self.timeout_count = 0;
                    proof {
                        lemma_insert_all_tracks(
                            old(self).model().resident,
                            old(self).model().capacity,
                            old(self).model().emitted,
                            delta@,
                        );
                    }
                    (delta, PollAction::Immediate)
                } else if self.sync_interval < SYNC_INTERVAL_MAX {
                    let doubled = self.sync_interval * 2;
                    self.sync_interval = if doubled >= SYNC_INTERVAL_MAX {
                        SYNC_INTERVAL_MAX
                    } else {
                        doubled
                    };
                    (delta, PollAction::Sleep(self.sync_interval))
                } else {
                    self.timeout_count = self.timeout_count + 1;
                    if self.timeout_count == 2 {
                        if forward {
                            (delta, PollAction::Recover(SYNC_INTERVAL_MAX))
                        } else {
                            (delta, PollAction::Terminate(SYNC_INTERVAL_MAX))
                        }
                    } else {
                        (delta, PollAction::Sleep(SYNC_INTERVAL_MAX))
                    }
                }
            },
        }
    }

    /// The recovery cycle that follows a `Recover` action: the task has
    /// reset the cursor to the sentinel and retrieved one more page.
    pub fn recovery_step(&mut self, listing: &Listing, page: VecDeque<Post>) -> (r: Vec<Post>)
        requires
            old(self).wf(),
            !listing.is_random(),
        ensures
            final(self).wf(),
            final(self).model() == recovery_transition(
                old(self).model(),
                listing.pag().is_forward(),
                page@,
            ).0,
            r@ == recovery_transition(old(self).model(), listing.pag().is_forward(), page@).1,
            final(self).model().sync_interval == SYNC_INTERVAL_DEFAULT as int,
            final(self).model().timeout_count == 0,
    {
        let forward = self.read_direction(listing);
        let ordered = if forward {
            page
        } else {
            reverse_deque(page)
        };
        let delta = self.buffer.difference(ordered);
        self.absorb(&delta);
        self.sync_interval = SYNC_INTERVAL_DEFAULT;
        self.timeout_count = 0;
        proof {
            lemma_insert_all_tracks(
                old(self).model().resident,
                old(self).model().capacity,
                old(self).model().emitted,
                delta@,
            );
        }
        delta
    }

    fn read_direction(&self, listing: &Listing) -> (r: bool)
        requires
            !listing.is_random(),
        ensures
            r == listing.pag().is_forward(),
    {
        match listing.paginator().cursor() {
            Seek::After { .. } => true,
            Seek::Back { .. } => false,
        }
    }

    /// Insert a computed delta into the dedup buffer, in order, and
    /// record its ids as emitted.
    fn absorb(&mut self, delta: &Vec<Post>)
        requires
            old(self).model().capacity > 0,
            old(self).model().resident.len() <= old(self).model().capacity,
        ensures
            final(self).model().resident == insert_all(
                old(self).model().resident,
                old(self).model().capacity,
                delta@,
            ),
            final(self).model().capacity == old(self).model().capacity,
            final(self).model().emitted == old(self).model().emitted + ids_of(delta@),
            final(self).model().sync_interval == old(self).model().sync_interval,
            final(self).model().timeout_count == old(self).model().timeout_count,
    {
        let ghost cap = self.buffer.capacity();
        let ghost start = self.buffer.posts();
        let mut i: usize = 0;
        while i < delta.len()
            invariant
                i <= delta@.len(),
                self.buffer.capacity() == cap,
                cap > 0,
                self.buffer.posts().len() <= cap,
                self.buffer.posts() == insert_all(start, cap, delta@.take(i as int)),
                self.sync_interval == old(self).sync_interval,
                self.timeout_count == old(self).timeout_count,
                self.emitted == old(self).emitted,
            decreases delta@.len() - i,
        {
            proof {
                assert(delta@.take(i as int + 1).drop_last() =~= delta@.take(i as int));
            }
            self.buffer.insert(delta[i].clone());
            i += 1;
        }
        proof {
            assert(delta@.take(delta@.len() as int) =~= delta@);
        }
        self.emitted = Ghost(self.emitted@ + ids_of(delta@));
    }
}

/// Inserting one emitted post keeps the buffer tracking the emission
/// history.
pub proof fn lemma_insert_tracks(s: Seq<Post>, cap: nat, emitted: Seq<Seq<char>>, p: Post)
    requires
        cap > 0,
        tracks(s, cap, emitted),
    ensures
        tracks(buffer_insert(s, cap, p), cap, emitted.push(p.id@)),
{
    let t = buffer_insert(s, cap, p);
    let em2 = emitted.push(p.id@);
    if s.len() >= cap {
        assert(ids_of(t) =~= ids_of(s).drop_first().push(p.id@));
        assert(em2.skip(em2.len() - t.len()) =~= emitted.skip(emitted.len() - s.len()).drop_first().push(
            p.id@,
        ));
    } else {
        assert(ids_of(t) =~= ids_of(s).push(p.id@));
        assert(em2.skip(em2.len() - t.len()) =~= emitted.skip(emitted.len() - s.len()).push(p.id@));
    }
}

/// Inserting a whole emitted batch keeps the buffer tracking the
/// emission history.
pub proof fn lemma_insert_all_tracks(s: Seq<Post>, cap: nat, emitted: Seq<Seq<char>>, batch: Seq<Post>)
    requires
        cap > 0,
        tracks(s, cap, emitted),
    ensures
        tracks(insert_all(s, cap, batch), cap, emitted + ids_of(batch)),
        insert_all(s, cap, batch).len() <= cap,
    decreases batch.len(),
{
    if batch.len() == 0 {
        assert(emitted + ids_of(batch) =~= emitted);
    } else {
        let rest = batch.drop_last();
        lemma_insert_all_tracks(s, cap, emitted, rest);
        lemma_insert_tracks(insert_all(s, cap, rest), cap, emitted + ids_of(rest), batch.last());
        assert((emitted + ids_of(rest)).push(batch.last().id@) =~= emitted + ids_of(batch));
    }
}

/// Law: whatever one cycle is handed, the poller state stays well
/// formed; in particular the sync interval is always a power of two
/// between one and the cap.
pub proof fn lemma_interval_always_valid(m: PollerModel, forward: bool, result: Option<Seq<Post>>)
    requires
        m.wf(),
        m.timeout_count < 2,
    ensures
        poll_transition(m, forward, result).0.wf(),
        valid_interval(poll_transition(m, forward, result).0.sync_interval),
        1 <= poll_transition(m, forward, result).0.sync_interval <= SYNC_INTERVAL_MAX,
{
    match result {
        Option::None => {},
        Option::Some(page) => {
            let delta = buffer_difference(m.resident, ordered_page(page, forward));
            if delta.len() > 0 {
                lemma_insert_all_tracks(m.resident, m.capacity, m.emitted, delta);
            }
        },
    }
}

/// Law: a poller seeking back that sees two empty pages while already at
/// the interval cap terminates.
pub proof fn lemma_back_poller_terminates(m: PollerModel)
    requires
        m.wf(),
        m.sync_interval == SYNC_INTERVAL_MAX,
        m.timeout_count == 0,
    ensures
        ({
            let (m1, e1, a1) = poll_transition(m, false, Option::Some(Seq::<Post>::empty()));
            let (m2, e2, a2) = poll_transition(m1, false, Option::Some(Seq::<Post>::empty()));
            &&& e1 == Seq::<Post>::empty()
            &&& e2 == Seq::<Post>::empty()
            &&& a1 == PollAction::Sleep(SYNC_INTERVAL_MAX)
            &&& a2 == PollAction::Terminate(SYNC_INTERVAL_MAX)
        }),
{
    assert(ordered_page(Seq::<Post>::empty(), false) =~= Seq::<Post>::empty());
}

/// Law: a poller seeking forward under the same starvation runs the
/// cursor-reset recovery instead, and the recovery cycle starts the
/// backoff over from one second.
pub proof fn lemma_forward_poller_recovers(m: PollerModel, page: Seq<Post>)
    requires
        m.wf(),
        m.sync_interval == SYNC_INTERVAL_MAX,
        m.timeout_count == 0,
    ensures
        ({
            let (m1, e1, a1) = poll_transition(m, true, Option::Some(Seq::<Post>::empty()));
            let (m2, e2, a2) = poll_transition(m1, true, Option::Some(Seq::<Post>::empty()));
            &&& a1 == PollAction::Sleep(SYNC_INTERVAL_MAX)
            &&& a2 == PollAction::Recover(SYNC_INTERVAL_MAX)
            &&& recovery_transition(m2, true, page).0.sync_interval == SYNC_INTERVAL_DEFAULT as int
            &&& recovery_transition(m2, true, page).0.timeout_count == 0
        }),
{
}

/// Law: ids emitted by one poller stay pairwise distinct across cycles,
/// as long as its lifetime emission count stays within the dedup
/// buffer's capacity and each page carries no duplicate ids itself.
pub proof fn lemma_emitted_ids_unique(m: PollerModel, forward: bool, page: Seq<Post>)
    requires
        m.wf(),
        distinct_ids(m.emitted),
        distinct_ids(ids_of(page)),
        m.emitted.len() + page.len() <= m.capacity,
    ensures
        distinct_ids(poll_transition(m, forward, Option::Some(page)).0.emitted),
        distinct_ids(recovery_transition(m, forward, page).0.emitted),
{
    let ordered = ordered_page(page, forward);
    assert(ids_of(ordered).len() == page.len());
    assert forall|i: int, j: int| 0 <= i < j < ids_of(ordered).len() implies ids_of(ordered)[i]
        != ids_of(ordered)[j] by {
        if forward {
        } else {
            assert(ordered[i] == page[page.len() - 1 - i]);
            assert(ordered[j] == page[page.len() - 1 - j]);
            assert(ids_of(page)[page.len() - 1 - j] != ids_of(page)[page.len() - 1 - i]);
        }
    }
    let delta = buffer_difference(m.resident, ordered);
    lemma_difference_distinct(m.resident, ordered);
    lemma_difference_len(m.resident, ordered);
    let out = m.emitted + ids_of(delta);
    assert(m.emitted.len() <= m.capacity);
    assert(m.resident.len() == m.emitted.len());
    assert(ids_of(m.resident) == m.emitted.skip(0));
    assert(m.emitted.skip(0) =~= m.emitted);
    assert forall|i: int, j: int| 0 <= i < j < out.len() implies out[i] != out[j] by {
        if j >= m.emitted.len() {
            crate::curator::lemma_difference_excludes_resident(m.resident, ordered, j - m.emitted.len());
            if i >= m.emitted.len() {
                crate::curator::lemma_difference_excludes_resident(
                    m.resident,
                    ordered,
                    i - m.emitted.len(),
                );
            } else {
                let jd = j - m.emitted.len();
                assert(!has_id(m.resident, delta[jd].id@));
                assert(ids_of(m.resident)[i] == m.resident[i].id@);
                assert(m.resident[i].id@ != delta[jd].id@);
                assert(out[i] == m.emitted[i]);
            }
        }
    }
}

/// The ids of a computed delta are pairwise distinct whenever the page's
/// ids are.
pub proof fn lemma_difference_distinct(resident: Seq<Post>, other: Seq<Post>)
    requires
        distinct_ids(ids_of(other)),
    ensures
        distinct_ids(ids_of(buffer_difference(resident, other))),
    decreases other.len(),
{
    if other.len() > 0 {
        let rest_other = other.drop_last();
        assert forall|i: int, j: int|
            0 <= i < j < ids_of(rest_other).len() implies ids_of(rest_other)[i] != ids_of(
            rest_other,
        )[j] by {
            assert(ids_of(other)[i] == ids_of(rest_other)[i]);
            assert(ids_of(other)[j] == ids_of(rest_other)[j]);
        }
        lemma_difference_distinct(resident, rest_other);
        let diff = buffer_difference(resident, other);
        let rest = buffer_difference(resident, rest_other);
        if !has_id(resident, other.last().id@) {
            assert forall|i: int, j: int| 0 <= i < j < ids_of(diff).len() implies ids_of(diff)[i]
                != ids_of(diff)[j] by {
                if j == ids_of(diff).len() - 1 {
                    crate::curator::lemma_difference_excludes_resident(resident, rest_other, i);
                    let k = choose|k: int|
                        0 <= k < rest_other.len() && rest_other[k] == rest[i];
                    assert(ids_of(other)[k] == rest[i].id@);
                    assert(ids_of(other)[other.len() - 1] == other.last().id@);
                    assert(diff[j] == other.last());
                    assert(diff[i] == rest[i]);
                } else {
                    assert(ids_of(rest)[i] != ids_of(rest)[j]);
                }
            }
        }
    }
}

/// A delta never outgrows its page.
pub proof fn lemma_difference_len(resident: Seq<Post>, other: Seq<Post>)
    ensures
        buffer_difference(resident, other).len() <= other.len(),
    decreases other.len(),
{
    if other.len() > 0 {
        lemma_difference_len(resident, other.drop_last());
    }
}

/// A page in the reverse order.
fn reverse_deque(v: VecDeque<Post>) -> (r: VecDeque<Post>)
    ensures
        r@ == v@.reverse(),
{
    let mut out: VecDeque<Post> = VecDeque::new();
    let mut i: usize = v.len();
    while i > 0
        invariant
            i <= v@.len(),
            out@.len() == v@.len() - i,
            forall|j: int| 0 <= j < out@.len() ==> out@[j] == v@[v@.len() - 1 - j],
        decreases i,
    {
        i = i - 1;
        out.push_back(v[i].clone());
    }
    proof {
        assert(out@ =~= v@.reverse());
    }
    out
}

} // verus!
