//! The delivery vault: the set of posts ever delivered downstream,
//! keyed by post id. A hit here suppresses re-delivery across users and
//! across restarts.
//!
//! This is the vault's logical state; mirroring it onto the persistent
//! store is the surrounding program's part, which feeds every saved
//! record back through `save` on reconstruction.

use vstd::prelude::*;

use crate::content::Post;
use crate::curator::has_id;
use crate::strutil::str_eq;

verus! {

/// What one `save` leaves in the vault: nothing new when a record with
/// that id already exists (a unique violation, absorbed), otherwise the
/// post appended.
pub open spec fn vault_save(records: Seq<Post>, p: Post) -> Seq<Post> {
    if has_id(records, p.id@) {
        records
    } else {
        records.push(p)
    }
}

/// Persistent set of delivered posts, one record per id.
pub struct ArtVault {
    records: Vec<Post>,
}

impl ArtVault {
    /// The delivery records, in insertion order.
    pub closed spec fn records(self) -> Seq<Post> {
        self.records@
    }

    pub open spec fn contains_id(self, id: Seq<char>) -> bool {
        has_id(self.records(), id)
    }

    /// One record per id.
    pub open spec fn wf(self) -> bool {
        forall|i: int, j: int|
            0 <= i < j < self.records().len() ==> (#[trigger] self.records()[i].id@) != (
            #[trigger] self.records()[j].id@)
    }

    pub fn instance() -> (r: ArtVault)
        ensures
            r.wf(),
            r.records() == Seq::<Post>::empty(),
    {
        ArtVault { records: Vec::new() }
    }

    fn position_of(&self, post_id: &str) -> (r: Option<usize>)
        ensures
            match r {
                Option::Some(i) => i < self.records().len() && self.records()[i as int].id@
                    == post_id@,
                Option::None => !self.contains_id(post_id@),
            },
    {
        let mut i: usize = 0;
        while i < self.records.len()
            invariant
                i <= self.records().len(),
                forall|j: int| 0 <= j < i ==> (#[trigger] self.records()[j].id@) != post_id@,
            decreases self.records().len() - i,
        {
            if str_eq(self.records[i].id.as_str(), post_id) {
                return Option::Some(i);
            }
            i += 1;
        }
        Option::None
    }

    /// Record a delivery. Saving an already-saved id is a no-op: the
    /// unique violation is absorbed.
    pub fn save(&mut self, p: &Post)
        requires
            old(self).wf(),
        ensures
            final(self).wf(),
            final(self).records() == vault_save(old(self).records(), *p),
            final(self).contains_id(p.id@),
    {
        match self.position_of(p.id.as_str()) {
            Option::Some(_) => {},
            Option::None => {
                self.records.push(p.clone());
                proof {
                    assert(self.records()[self.records().len() - 1].id@ == p.id@);
                }
            },
        }
    }

    /// Look a delivery record up by post id.
    pub fn fetch(&self, post_id: &str) -> (r: Option<Post>)
        ensures
            r is Some <==> self.contains_id(post_id@),
            r is Some ==> r.unwrap().id@ == post_id@ && self.records().contains(r.unwrap()),
    {
        match self.position_of(post_id) {
            Option::Some(i) => {
                let found = self.records[i].clone();
                proof {
                    assert(self.records().contains(self.records()[i as int]));
                }
                Option::Some(found)
            },
            Option::None => Option::None,
        }
    }
}

/// Law: saving the same post twice is a no-op after the first save.
pub proof fn lemma_save_idempotent(records: Seq<Post>, p: Post)
    ensures
        vault_save(vault_save(records, p), p) == vault_save(records, p),
{
    if !has_id(records, p.id@) {
        assert(records.push(p)[records.len() as int].id@ == p.id@);
    }
}

/// Law: once a delivery is saved, a record with its id exists, whatever
/// the vault held before.
pub proof fn lemma_delivery_recorded(records: Seq<Post>, p: Post)
    ensures
        has_id(vault_save(records, p), p.id@),
{
    if !has_id(records, p.id@) {
        assert(records.push(p)[records.len() as int].id@ == p.id@);
    }
}

/// Law: one forwarding step — skip when a record with the post's id
/// already exists, otherwise send, and save exactly when the send
/// succeeded — leaves a record with the post's id whenever the post was
/// delivered.
pub proof fn lemma_forwarding_records_delivery(records: Seq<Post>, p: Post, send_ok: bool)
    ensures
        ({
            let delivered = !has_id(records, p.id@) && send_ok;
            let after = if delivered {
                vault_save(records, p)
            } else {
                records
            };
            delivered ==> has_id(after, p.id@)
        }),
{
    lemma_delivery_recorded(records, p);
}

} // verus!
