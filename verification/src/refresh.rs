//! Bulk refreshes of the store, one at a time.

use crate::store::FeatureStore;
use crate::sync::{rwlock_new, rwlock_write};
use parking_lot::lock_api::RwLock;
use parking_lot::RawRwLock;
use vstd::prelude::*;

verus! {

/// A bulk source that could not be read in full.
#[derive(Clone, Copy, Debug, PartialEq, Eq, Structural)]
pub struct MalformedSource {
    /// The position of the first record that could not be read.
    pub record: usize,
}

/// The position of the first unreadable record of `records`, or their number
/// where every record was read.
pub open spec fn first_unreadable<R>(records: Seq<Option<R>>) -> int
    decreases records.len(),
{
    if records.len() == 0 {
        0
    } else if records[0] is None {
        0
    } else {
        1 + first_unreadable(records.drop_first())
    }
}

/// The records of `records`, in order, where every one of them was read.
pub open spec fn readable<R>(records: Seq<Option<R>>) -> Seq<R> {
    Seq::new(records.len(), |i: int| records[i]->0)
}

/// `first_unreadable` points at an unreadable record that only readable ones
/// precede, or past the end.
pub proof fn first_unreadable_is_first<R>(records: Seq<Option<R>>)
    ensures
        0 <= first_unreadable(records) <= records.len(),
        forall|i: int| 0 <= i < first_unreadable(records) ==> (#[trigger] records[i]) is Some,
        first_unreadable(records) < records.len() ==> records[first_unreadable(records)] is None,
    decreases records.len(),
{
    if records.len() > 0 && records[0] is Some {
        let rest = records.drop_first();
        first_unreadable_is_first(rest);
        assert forall|i: int| 0 <= i < first_unreadable(records) implies (
        #[trigger] records[i]) is Some by {
            if i > 0 {
                assert(rest[i - 1] is Some);
            }
        }
    }
}

/// Turns the records read from a bulk source into a batch, all or nothing:
/// the batch holds every record in order where every record was read, and
/// one unreadable record refuses the whole source.
pub fn assemble_batch<R>(records: Vec<Option<R>>) -> (batch: Result<Vec<R>, MalformedSource>)
    ensures
        match batch {
            Ok(updates) => first_unreadable(records@) == records@.len() && updates@ == readable(
                records@,
            ),
            Err(refusal) => refusal.record == first_unreadable(records@) && refusal.record
                < records@.len(),
        },
{
    let ghost all = records@;
    let mut updates: Vec<R> = Vec::with_capacity(records.len());
    proof {
        first_unreadable_is_first(all);
    }
    for record in it: records
        invariant
            it.seq() == all,
            updates@.len() == it.index(),
            it.index() <= first_unreadable(all),
            forall|i: int| 0 <= i < it.index() ==> all[i] == Some(#[trigger] updates@[i]),
            0 <= first_unreadable(all) <= all.len(),
            forall|i: int| 0 <= i < first_unreadable(all) ==> (#[trigger] all[i]) is Some,
            first_unreadable(all) < all.len() ==> all[first_unreadable(all)] is None,
    {
        match record {
            Some(update) => {
                updates.push(update);
            },
            None => {
                return Err(MalformedSource { record: updates.len() });
            },
        }
    }
    assert(updates@ =~= readable(all));
    Ok(updates)
}

/// Serialises bulk refreshes: at most one of them writes to the store at a
/// time. Lookups and single upserts do not take the token and are never held
/// up by it.
pub struct RefreshCoordinator {
    token: RwLock<RawRwLock, ()>,
}

impl RefreshCoordinator {
    /// A coordinator whose token is free.
    pub fn new() -> RefreshCoordinator {
        RefreshCoordinator { token: rwlock_new(()) }
    }

    /// Applies `updates` to `store` while holding the token. The token is
    /// taken only here, after the caller has read its source.
    pub fn refresh<T: Copy>(&self, store: &FeatureStore<T>, updates: Vec<(String, Vec<T>)>) {
        let _turn = rwlock_write(&self.token);
        store.batch_update_features(updates);
    }

    /// Applies the records read from a bulk source, all or nothing: where
    /// every record was read they are applied and counted, and where one was
    /// not the store is left alone.
    pub fn bulk_load<T: Copy>(
        &self,
        store: &FeatureStore<T>,
        records: Vec<Option<(String, Vec<T>)>>,
    ) -> (loaded: Result<usize, MalformedSource>)
        ensures
            match loaded {
                Ok(count) => first_unreadable(records@) == records@.len() && count
                    == records@.len(),
                Err(refusal) => refusal.record == first_unreadable(records@) && refusal.record
                    < records@.len(),
            },
    {
        match assemble_batch(records) {
            Ok(updates) => {
                let count: usize = updates.len();
                self.refresh(store, updates);
                Ok(count)
            },
            Err(refusal) => Err(refusal),
        }
    }
}

} // verus!
