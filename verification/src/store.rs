use crate::clock::unix_seconds;
use crate::entry::{Data, DataView};
use vstd::hash_map::StringHashMap;
use vstd::prelude::*;
use vstd::string::StringExecFns;

verus! {

/// The mathematical content of a store: at most one record per key.
pub type StoreView = Map<Seq<char>, DataView>;

/// A key is live when it is present and its record is not expired at `now`.
pub open spec fn live(store: StoreView, key: Seq<char>, now: nat) -> bool {
    store.contains_key(key) && !store[key].expired_at(now)
}

/// What a lookup of `key` at `now` answers.
pub open spec fn lookup(store: StoreView, key: Seq<char>, now: nat) -> Option<DataView> {
    if live(store, key, now) {
        Some(store[key])
    } else {
        None
    }
}

/// What a lookup of `key` at `now` leaves behind: an expired record under
/// `key` is dropped, everything else stays.
pub open spec fn evict(store: StoreView, key: Seq<char>, now: nat) -> StoreView {
    if store.contains_key(key) && store[key].expired_at(now) {
        store.remove(key)
    } else {
        store
    }
}

/// The record a key held, if any, regardless of expiry.
pub open spec fn held(store: StoreView, key: Seq<char>) -> Option<DataView> {
    if store.contains_key(key) {
        Some(store[key])
    } else {
        None
    }
}

/// The store after an `add` of `data` under `key` at `now`.
pub open spec fn added(store: StoreView, key: Seq<char>, data: DataView, now: nat) -> StoreView {
    if live(store, key, now) {
        store
    } else {
        store.insert(key, data)
    }
}

/// The store after a `replace` of `key` by `data` at `now`.
pub open spec fn replaced(store: StoreView, key: Seq<char>, data: DataView, now: nat) -> StoreView {
    if live(store, key, now) {
        store.insert(key, data)
    } else {
        evict(store, key, now)
    }
}

/// The content of an optional borrowed record.
pub open spec fn view_of_ref(found: Option<&Data>) -> Option<DataView> {
    match found {
        Some(data) => Some(data@),
        None => None,
    }
}

/// The content of an optional record.
pub open spec fn view_of(found: Option<Data>) -> Option<DataView> {
    match found {
        Some(data) => Some(data@),
        None => None,
    }
}

/// An expiring key-value map. Expired records are dropped only when a lookup
/// finds them.
pub struct DataStorage {
    store: StringHashMap<Data>,
}

impl View for DataStorage {
    type V = StoreView;

    closed spec fn view(&self) -> StoreView {
        self.store@.map_values(|data: Data| data@)
    }
}

impl DataStorage {
    /// An empty store.
    pub fn new() -> (storage: DataStorage)
        ensures
            storage@ == Map::<Seq<char>, DataView>::empty(),
    {
        let storage = DataStorage { store: StringHashMap::new() };
        assert(storage@ =~= Map::<Seq<char>, DataView>::empty());
        storage
    }

    /// Looks `key` up at clock reading `now`. A live record is returned; an
    /// expired one is removed first and the lookup answers `None`.
    pub fn get_at(&mut self, key: &str, now: u64) -> (found: Option<&Data>)
        ensures
            view_of_ref(found) == lookup(old(self)@, key@, now as nat),
            final(self)@ == evict(old(self)@, key@, now as nat),
    {
        let should_remove = match self.store.get(key) {
            Some(data) => data.is_expired_at(now),
            None => false,
        };
        if should_remove {
            self.store.remove(key);
            assert(self@ =~= old(self)@.remove(key@));
            None
        } else {
            self.store.get(key)
        }
    }

    /// Looks `key` up at the current clock reading: the lookup `get_at` makes
    /// for some reading.
    pub fn get(&mut self, key: &str) -> (found: Option<&Data>)
        ensures
            exists|now: u64|
                view_of_ref(found) == #[trigger] lookup(old(self)@, key@, now as nat)
                    && final(self)@ == evict(old(self)@, key@, now as nat),
    {
        let now: u64 = unix_seconds();
        self.get_at(key, now)
    }

    /// Whether `key` is live at clock reading `now`; an expired record under
    /// `key` is removed.
    pub fn key_exists_at(&mut self, key: &str, now: u64) -> (present: bool)
        ensures
            present == live(old(self)@, key@, now as nat),
            final(self)@ == evict(old(self)@, key@, now as nat),
    {
        match self.get_at(key, now) {
            Some(_) => true,
            None => false,
        }
    }

    /// Whether `key` is live at the current clock reading: the answer
    /// `key_exists_at` gives for some reading.
    pub fn key_exists(&mut self, key: &str) -> (present: bool)
        ensures
            exists|now: u64|
                present == #[trigger] live(old(self)@, key@, now as nat)
                    && final(self)@ == evict(old(self)@, key@, now as nat),
    {
        let now: u64 = unix_seconds();
        self.key_exists_at(key, now)
    }

    /// Stores `data` under `key`, replacing whatever was there, and returns
    /// the record it replaced, expired or not.
    pub fn insert(&mut self, key: &str, data: Data) -> (previous: Option<Data>)
        ensures
            final(self)@ == old(self)@.insert(key@, data@),
            view_of(previous) == held(old(self)@, key@),
    {
        let previous = match self.store.get(key) {
            Some(current) => Some(current.clone()),
            None => None,
        };
        self.store.insert(String::from_str(key), data);
        assert(self@ =~= old(self)@.insert(key@, data@));
        previous
    }

    /// Deletes `key` and returns the record it held, expired or not.
    pub fn remove(&mut self, key: &str) -> (previous: Option<Data>)
        ensures
            final(self)@ == old(self)@.remove(key@),
            view_of(previous) == held(old(self)@, key@),
    {
        let previous = match self.store.get(key) {
            Some(current) => Some(current.clone()),
            None => None,
        };
        self.store.remove(key);
        assert(self@ =~= old(self)@.remove(key@));
        previous
    }

    /// Stores `data` under `key` only if `key` is not live at `now`, and says
    /// whether it did.
    pub fn add_at(&mut self, key: &str, data: Data, now: u64) -> (stored: bool)
        ensures
            stored == !live(old(self)@, key@, now as nat),
            final(self)@ == added(old(self)@, key@, data@, now as nat),
    {
        if self.key_exists_at(key, now) {
            false
        } else {
            let ghost swept = self@;
            self.store.insert(String::from_str(key), data);
            assert(self@ =~= swept.insert(key@, data@));
            assert(swept.insert(key@, data@) =~= old(self)@.insert(key@, data@));
            true
        }
    }

    /// Stores `data` under `key` only if `key` is not live at the current
    /// clock reading: what `add_at` does for some reading.
    pub fn add(&mut self, key: &str, data: Data) -> (stored: bool)
        ensures
            exists|now: u64|
                stored == !#[trigger] live(old(self)@, key@, now as nat)
                    && final(self)@ == added(old(self)@, key@, data@, now as nat),
    {
        let now: u64 = unix_seconds();
        self.add_at(key, data, now)
    }

    /// Stores `data` under `key` only if `key` is live at `now`, and says
    /// whether it did. An expired record under `key` is removed.
    pub fn replace_at(&mut self, key: &str, data: Data, now: u64) -> (stored: bool)
        ensures
            stored == live(old(self)@, key@, now as nat),
            final(self)@ == replaced(old(self)@, key@, data@, now as nat),
    {
        if self.key_exists_at(key, now) {
            self.store.insert(String::from_str(key), data);
            assert(self@ =~= old(self)@.insert(key@, data@));
            true
        } else {
            false
        }
    }

    /// Stores `data` under `key` only if `key` is live at the current clock
    /// reading: what `replace_at` does for some reading.
    pub fn replace(&mut self, key: &str, data: Data) -> (stored: bool)
        ensures
            exists|now: u64|
                stored == #[trigger] live(old(self)@, key@, now as nat)
                    && final(self)@ == replaced(old(self)@, key@, data@, now as nat),
    {
        let now: u64 = unix_seconds();
        self.replace_at(key, data, now)
    }
}

} // verus!
