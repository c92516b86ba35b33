//! The feature store: a keyed collection of feature vectors that many
//! callers read and update at once.
//!
//! Two locks guard the store. The structural lock guards the directory: which
//! keys are present, and which record is bound to each. Every record has a
//! lock of its own that guards its vector. A caller that reads or replaces a
//! vector holds the structural lock shared and the record's lock; only a
//! caller that adds a key holds the structural lock exclusively.

use crate::model::{lookup, upsert};
use crate::sync::{exclusive_get_mut, rwlock_new, rwlock_read, rwlock_write, shared_get};
use parking_lot::lock_api::RwLock;
use parking_lot::RawRwLock;
use vstd::hash_map::StringHashMap;
use vstd::prelude::*;

verus! {

/// Why a lookup returned no vector.
#[derive(Clone, Copy, Debug, PartialEq, Eq, Structural)]
pub enum FeatureStoreReadError {
    /// No record is bound to the key.
    KeyDoesNotExists,
}

/// An independent copy of `source`, equal to it element by element.
pub fn copy_vector<T: Copy>(source: &Vec<T>) -> (copy: Vec<T>)
    ensures
        copy@ == source@,
{
    let mut copy: Vec<T> = Vec::with_capacity(source.len());
    let mut i: usize = 0;
    while i < source.len()
        invariant
            i <= source.len(),
            copy@ == source@.take(i as int),
        decreases source.len() - i,
    {
        copy.push(source[i]);
        i += 1;
    }
    copy
}

/// One record: a feature vector behind a lock of its own.
///
/// To the verifier a record is an identity. The vector it guards may be
/// replaced by any caller that can reach the record, so no contract speaks
/// of it.
#[verifier::reject_recursive_types(T)]
pub struct Record<T> {
    cell: RwLock<RawRwLock, Vec<T>>,
}

impl<T: Copy> Record<T> {
    /// A new record that guards `features`.
    pub(crate) fn new(features: Vec<T>) -> Record<T> {
        Record { cell: rwlock_new(features) }
    }

    /// A copy of the vector, taken while the record is held shared.
    pub(crate) fn read(&self) -> Vec<T> {
        let hold = rwlock_read(&self.cell);
        copy_vector(shared_get(&hold))
    }

    /// Replaces the vector while the record is held exclusively.
    pub(crate) fn replace(&self, features: Vec<T>) {
        let mut hold = rwlock_write(&self.cell);
        let slot = exclusive_get_mut(&mut hold);
        *slot = features;
    }
}

/// The structural state of the store: the keys present and the record bound
/// to each.
///
/// The store keeps its directory behind the structural lock. A function that
/// takes `&self` is what a caller does while it holds that lock shared; one
/// that takes `&mut self` is what it does while it holds the lock
/// exclusively.
#[verifier::reject_recursive_types(T)]
pub struct Directory<T> {
    records: StringHashMap<Record<T>>,
}

impl<T: Copy> Directory<T> {
    /// The record bound to each key.
    pub closed spec fn view(&self) -> Map<Seq<char>, Record<T>> {
        self.records@
    }

    /// The keys present.
    pub open spec fn keys(&self) -> Set<Seq<char>> {
        self@.dom()
    }

    /// A directory without keys.
    pub fn new() -> (directory: Directory<T>)
        ensures
            directory@ == Map::<Seq<char>, Record<T>>::empty(),
    {
        Directory { records: StringHashMap::new() }
    }

    /// The vector bound to `feature_id`: a copy of it where the key is
    /// present, `KeyDoesNotExists` where it is absent.
    pub fn get(&self, feature_id: &str) -> (result: Result<Vec<T>, FeatureStoreReadError>)
        ensures
            match result {
                Ok(_) => lookup(self@, feature_id@) is Some,
                Err(error) => lookup(self@, feature_id@) is None && error
                    == FeatureStoreReadError::KeyDoesNotExists,
            },
    {
        match self.records.get(feature_id) {
            Some(record) => Ok(record.read()),
            None => Err(FeatureStoreReadError::KeyDoesNotExists),
        }
    }

    /// Replaces the vector bound to `feature_id` where the key is present,
    /// and returns `None`. Where the key is absent nothing changes and
    /// `features` comes back: binding a new key takes an exclusive hold.
    pub fn replace(&self, feature_id: &str, features: Vec<T>) -> (unbound: Option<Vec<T>>)
        ensures
            match unbound {
                None => lookup(self@, feature_id@) is Some,
                Some(returned) => lookup(self@, feature_id@) is None && returned == features,
            },
    {
        match self.records.get(feature_id) {
            Some(record) => {
                record.replace(features);
                None
            },
            None => Some(features),
        }
    }

    /// Binds a new record that guards `features` to `feature_id`. Where the
    /// key was present, because another caller bound it first, the new record
    /// takes the place of the old one: the key has one record, that of the
    /// caller that came last. No other key is touched.
    pub fn insert(&mut self, feature_id: String, features: Vec<T>)
        ensures
            exists|record: Record<T>|
                final(self)@ == #[trigger] upsert(old(self)@, feature_id@, record),
            final(self).keys() == old(self).keys().insert(feature_id@),
    {
        let record = Record::new(features);
        self.records.insert(feature_id, record);
        assert(self@ == upsert(old(self)@, feature_id@, record));
    }
}

/// A keyed collection of feature vectors, shared between callers.
///
/// Every function takes `&self`, and any number of callers may run them at
/// once. What one caller reads therefore depends on what the others wrote,
/// and no contract here speaks of the store's contents: what holds of every
/// outcome is stated on [`Directory`], by the functions that run while a
/// lock is held, and what holds of one caller alone by the laws of
/// [`crate::model`].
#[verifier::reject_recursive_types(T)]
pub struct FeatureStore<T> {
    store: RwLock<RawRwLock, Directory<T>>,
}

impl<T: Copy> FeatureStore<T> {
    /// An empty store.
    pub fn new() -> FeatureStore<T> {
        FeatureStore { store: rwlock_new(Directory::new()) }
    }

    /// The vector bound to `feature_id`, copied out while the structural
    /// lock and the record's lock are held shared.
    pub fn get_feature(&self, feature_id: &str) -> Result<Vec<T>, FeatureStoreReadError> {
        let hold = rwlock_read(&self.store);
        shared_get(&hold).get(feature_id)
    }

    /// Binds `features` to `feature_id`, whether or not the key is present.
    ///
    /// The key is looked up under a shared hold of the structural lock, and
    /// where it is present only its record is locked. Where it is absent the
    /// shared hold is given up and the key is bound under an exclusive one.
    /// Another caller may bind the same key in between; the caller that
    /// takes the exclusive hold last then wins.
    pub fn upsert(&self, feature_id: String, features: Vec<T>) {
        let unbound = {
            let hold = rwlock_read(&self.store);
            shared_get(&hold).replace(feature_id.as_str(), features)
        };
        if let Some(features) = unbound {
            let mut hold = rwlock_write(&self.store);
            exclusive_get_mut(&mut hold).insert(feature_id, features);
        }
    }

    /// Upserts every pair of `updates`, first to last, each on its own.
    pub fn batch_update_features(&self, updates: Vec<(String, Vec<T>)>) {
        for update in updates {
            let (feature_id, features) = update;
            self.upsert(feature_id, features);
        }
    }
}

impl<T: Copy> Default for FeatureStore<T> {
    fn default() -> FeatureStore<T> {
        FeatureStore::new()
    }
}

} // verus!
