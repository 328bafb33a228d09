//! The cache store: at most one timestamped payload for each key.

use crate::clock::{elapsed_secs, Timestamp};
use serde_json::Value;
use vstd::hash_map::StringHashMap;
use vstd::prelude::*;

verus! {

/// What an entry is, to a contract: the payload and the moment it was
/// fetched, in nanoseconds since the clock's origin.
pub struct EntryModel {
    pub value: Value,
    pub fetched_at: nat,
}

/// What a store is, to a contract: a map from key to entry.
pub type StoreModel = Map<Seq<char>, EntryModel>;

/// An entry is stale once `ttl_secs` whole seconds or more lie between the
/// moment it was fetched and `now`.
pub open spec fn is_stale_at(entry: EntryModel, ttl_secs: u64, now: nat) -> bool {
    elapsed_secs(entry.fetched_at, now) >= ttl_secs
}

/// The entry under `key`, if there is one.
pub open spec fn model_get(store: StoreModel, key: Seq<char>) -> Option<EntryModel> {
    if store.contains_key(key) {
        Some(store[key])
    } else {
        None
    }
}

/// The store after `value`, fetched at `now`, was put under `key`: whatever
/// stood there before is gone, every other key is as it was.
pub open spec fn model_put(store: StoreModel, key: Seq<char>, value: Value, now: nat) -> StoreModel {
    store.insert(key, EntryModel { value, fetched_at: now })
}

/// One cached upstream answer. An entry is made whole and never changed: a
/// newer answer takes its place in the store as a new entry.
#[derive(Debug)]
pub struct CacheEntry {
    value: Value,
    fetched_at: Timestamp,
}

impl View for CacheEntry {
    type V = EntryModel;

    closed spec fn view(&self) -> EntryModel {
        EntryModel { value: self.value, fetched_at: self.fetched_at@ }
    }
}

impl CacheEntry {
    /// The entry for `value`, fetched at `fetched_at`.
    pub fn new(value: Value, fetched_at: Timestamp) -> (entry: CacheEntry)
        ensures
            entry@ == (EntryModel { value, fetched_at: fetched_at@ }),
    {
        CacheEntry { value, fetched_at }
    }

    /// The payload.
    pub fn value(&self) -> (value: &Value)
        ensures
            *value == self@.value,
    {
        &self.value
    }

    /// The moment the payload was fetched.
    pub fn fetched_at(&self) -> (at: Timestamp)
        ensures
            at@ == self@.fetched_at,
    {
        self.fetched_at
    }

    /// Whether the entry is too old to be served at `now` under a time to
    /// live of `ttl_secs` seconds.
    pub fn is_stale(&self, ttl_secs: u64, now: Timestamp) -> (stale: bool)
        ensures
            stale == is_stale_at(self@, ttl_secs, now@),
    {
        now.secs_since(self.fetched_at) >= ttl_secs as u128
    }
}

impl Clone for CacheEntry {
    fn clone(&self) -> (copy: CacheEntry)
        ensures
            copy@ == self@,
    {
        CacheEntry { value: self.value.clone(), fetched_at: self.fetched_at }
    }
}

/// The mapping from cache key to entry that all handlers share.
pub struct CacheStore {
    entries: StringHashMap<CacheEntry>,
}

impl View for CacheStore {
    type V = StoreModel;

    closed spec fn view(&self) -> StoreModel {
        self.entries@.map_values(|entry: CacheEntry| entry@)
    }
}

impl CacheStore {
    /// A store without entries.
    pub fn new() -> (store: CacheStore)
        ensures
            store@ == StoreModel::empty(),
    {
        let store = CacheStore { entries: StringHashMap::new() };
        assert(store@ =~= StoreModel::empty());
        store
    }

    /// A store without entries, with room set aside for `capacity` of them.
    pub fn with_capacity(capacity: usize) -> (store: CacheStore)
        ensures
            store@ == StoreModel::empty(),
    {
        let store = CacheStore { entries: StringHashMap::with_capacity(capacity) };
        assert(store@ =~= StoreModel::empty());
        store
    }

    /// The entry under `key`, stale or not. The store is left as it is.
    pub fn get(&self, key: &str) -> (found: Option<&CacheEntry>)
        ensures
            match found {
                Some(entry) => model_get(self@, key@) == Some(entry@),
                None => model_get(self@, key@) is None,
            },
    {
        self.entries.get(key)
    }

    /// Puts `value`, fetched at `now`, under `key`, in place of whatever
    /// stood there.
    pub fn put(&mut self, key: String, value: Value, now: Timestamp)
        ensures
            final(self)@ == model_put(old(self)@, key@, value, now@),
    {
        self.entries.insert(key, CacheEntry::new(value, now));
        assert(self@ =~= model_put(old(self)@, key@, value, now@));
    }

    /// Whether an entry stands under `key`.
    pub fn contains_key(&self, key: &str) -> (present: bool)
        ensures
            present == self@.contains_key(key@),
    {
        self.entries.contains_key(key)
    }
}

} // verus!
