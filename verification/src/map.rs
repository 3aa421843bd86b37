//! The map that tells its changes.
use std::collections::HashMap;
use std::hash::Hash;
use std::sync::Arc;

use parking_lot::RwLock;
use vstd::pervasive::strictly_cloned;
use vstd::prelude::*;
use vstd::std_specs::hash::obeys_key_model;

use crate::change::MapChange;
use crate::change_watcher::ChangeWatcher;
use crate::history::{HistoryShared, DEFAULT_BUFFER_SIZE};
use crate::log::{lent_epoch, ChangeLog, LogStep};
use crate::sync::{clone_of, run_on, Guarded, Receipt};

verus! {

/// The entry of `key`, if there is one.
pub open spec fn entry<K, V>(map: Map<K, V>, key: K) -> Option<V> {
    if map.contains_key(key) {
        Some(map[key])
    } else {
        None
    }
}

/// Stores a clone of the value of `pair` under a clone of its key. Returns the value that was
/// there before, and the change. The keys have to hash and compare as keys should for more to
/// be known.
pub fn insert_entry<K: Eq + Hash + Clone, V: Clone>(
    data: &mut HashMap<K, V>,
    pair: (K, V),
) -> (result: (Option<V>, MapChange<K, V>))
    ensures
        result.1 == (MapChange::Insert { key: pair.0, value: pair.1 }),
        obeys_key_model::<K>() ==> {
            &&& result.1.tells(old(data)@, final(data)@)
            &&& exists|stored: K| #[trigger]
                strictly_cloned(pair.0, stored) && result.0 == entry(old(data)@, stored)
        },
{
    let (key, value) = pair;
    let stored_key = key.clone();
    let stored_value = value.clone();
    let before = data.insert(stored_key, stored_value);
    let change = MapChange::Insert { key, value };
    proof {
        assert(strictly_cloned(key, stored_key));
        if obeys_key_model::<K>() {
            assert(data@ == old(data)@.insert(stored_key, stored_value));
            assert(before == entry(old(data)@, stored_key));
        }
    }
    (before, change)
}

/// Takes out the entry of `key`. Returns its value, and the change if there was one. The
/// keys have to hash and compare as keys should for more to be known.
pub fn remove_entry<K: Eq + Hash + Clone, V: Clone>(data: &mut HashMap<K, V>, key: &K) -> (result: (
    Option<V>,
    Option<MapChange<K, V>>,
))
    ensures
        match result {
            (Some(_), Some(change)) => change matches MapChange::Remove { key: copy }
                && strictly_cloned(*key, copy),
            (None, None) => true,
            _ => false,
        },
        obeys_key_model::<K>() ==> {
            &&& result.0 == entry(old(data)@, *key)
            &&& match result.1 {
                Some(change) => change.tells(old(data)@, final(data)@),
                None => final(data)@ == old(data)@,
            }
        },
{
    match data.remove(key) {
        Some(value) => {
            let change = MapChange::Remove { key: key.clone() };
            proof {
                if obeys_key_model::<K>() {
                    assert(data@ == old(data)@.remove(*key));
                }
            }
            (Some(value), Some(change))
        },
        None => {
            assert(obeys_key_model::<K>() ==> data@ =~= old(data)@);
            (None, None)
        },
    }
}

/// Takes out all entries. Returns the change if there were any.
pub fn clear_entries<K: Clone, V: Clone>(data: &mut HashMap<K, V>, _nothing: ()) -> (change: Option<
    MapChange<K, V>,
>)
    ensures
        final(data)@ == Map::<K, V>::empty(),
        match change {
            Some(change) => {
                &&& !old(data)@.is_empty()
                &&& change is Clear
                &&& change.tells(old(data)@, final(data)@)
            },
            None => old(data)@.is_empty(),
        },
{
    if data.is_empty() {
        assert(data@ =~= Map::<K, V>::empty());
        return None;
    }
    data.clear();
    let change = MapChange::Clear;
    Some(change)
}

/// `copy` is a clone of the entry of `key`, if there is one.
pub open spec fn copies_entry<K, V: Clone>(map: Map<K, V>, key: K, copy: Option<V>) -> bool {
    match copy {
        Some(copy) => map.contains_key(key) && strictly_cloned(map[key], copy),
        None => !map.contains_key(key),
    }
}

/// A clone of the value of `key`, if there is one. The keys have to hash and compare as
/// keys should for more to be known.
pub fn get_entry<K: Eq + Hash, V: Clone>(data: &HashMap<K, V>, key: &K) -> (value: Option<V>)
    ensures
        obeys_key_model::<K>() ==> copies_entry(data@, *key, value),
{
    match data.get(key) {
        Some(value) => Some(value.clone()),
        None => None,
    }
}

/// Whether there is an entry of `key`. The keys have to hash and compare as keys should for that
/// to be known.
pub fn has_entry<K: Eq + Hash, V>(data: &HashMap<K, V>, key: &K) -> (present: bool)
    ensures
        obeys_key_model::<K>() ==> present == data@.contains_key(*key),
{
    data.contains_key(key)
}

/// The number of entries. The keys have to hash and compare as keys should for that to be known.
pub fn count_entries<K, V>(data: &HashMap<K, V>, _nothing: ()) -> (len: usize)
    ensures
        obeys_key_model::<K>() ==> len == data@.len(),
{
    data.len()
}

/// Whether there are no entries.
pub fn lacks_entries<K, V>(data: &HashMap<K, V>, _nothing: ()) -> (empty: bool)
    ensures
        empty == data@.is_empty(),
{
    data.is_empty()
}

/// Observable HashMap with change tracking. Its clones are handles to the same entries.
#[verifier::reject_recursive_types(K)]
#[verifier::reject_recursive_types(V)]
pub struct WatchableMap<K, V> {
    shared: HistoryShared<HashMap<K, V>, MapChange<K, V>>,
}

impl<K: Eq + Hash + Clone, V: Clone> WatchableMap<K, V> {
    /// The lock around the entries that the handle shares with its clones.
    pub closed spec fn data(self) -> RwLock<HashMap<K, V>> {
        self.shared.data()
    }

    /// The log that the handle shares with its clones and its watchers.
    pub closed spec fn log(self) -> Arc<Guarded<ChangeLog<MapChange<K, V>>>> {
        self.shared.log()
    }

    /// How many changes are held for watchers.
    pub open spec fn capacity(self) -> usize {
        self.log().limit()
    }

    /// The lock behind the handle was made around no entries, its log without changes.
    pub open spec fn began_empty(self) -> bool {
        &&& exists|entries: HashMap<K, V>| #[trigger]
            crate::sync::made_with(self.data(), entries) && entries@ == Map::<K, V>::empty()
        &&& crate::history::began_empty(*self.log())
    }

    /// A change, which the receipt is for, was recorded after it was made, if there was one.
    pub open spec fn records(self, change: Option<MapChange<K, V>>, receipt: Receipt) -> bool {
        change matches Some(change) ==> crate::log::takes_step(
            *self.log(),
            LogStep::Record(change),
            receipt,
        )
    }

    /// Creates an empty map.
    pub fn new() -> (handle: Self)
        ensures
            handle.capacity() == DEFAULT_BUFFER_SIZE,
            handle.began_empty(),
    {
        Self::with_capacity(DEFAULT_BUFFER_SIZE)
    }

    /// Creates an empty map that holds up to `buffer_size` changes for its watchers.
    pub fn with_capacity(buffer_size: usize) -> (handle: Self)
        requires
            0 < buffer_size <= isize::MAX,
        ensures
            handle.capacity() == buffer_size,
            handle.began_empty(),
    {
        let entries = HashMap::new();
        let ghost none = entries;
        let handle = WatchableMap { shared: HistoryShared::new(entries, buffer_size) };
        assert(crate::sync::made_with(handle.data(), none));
        handle
    }

    /// Stores `value` under `key`. Returns the value that was there before, in the map as
    /// it was found. The keys have to hash and compare as keys should for that to be known.
    pub fn insert(&self, key: K, value: V) -> (before: Option<V>)
        ensures
            exists|receipt: Receipt| #[trigger]
                crate::sync::writes(
                    self.data(),
                    (key, value),
                    insert_entry::<K, V>,
                    (before, MapChange::Insert { key, value }),
                    receipt,
                ) && self.records(Some(MapChange::Insert { key, value }), receipt),
            obeys_key_model::<K>() ==> exists|found: Map<K, V>, stored: K|
                strictly_cloned(key, stored) && before == #[trigger] entry(found, stored),
        opens_invariants [
            crate::sync::write_step(self.data(), (key, value), insert_entry::<K, V>),
            self.log().step(ChangeLog::<MapChange<K, V>>::record),
        ]
    {
        let ((before, change), receipt) = self.shared.write((key, value), insert_entry::<K, V>);
        let ghost made = (before, change);
        self.shared.push_change(change, receipt);
        assert(crate::sync::writes(
            self.data(),
            (key, value),
            insert_entry::<K, V>,
            made,
            receipt,
        ));
        before
    }

    /// Takes out the entry of `key`. Returns its value, in the map as it was found. The
    /// keys have to hash and compare as keys should for that to be known.
    pub fn remove(&self, key: &K) -> (value: Option<V>)
        ensures
            exists|change: Option<MapChange<K, V>>, receipt: Receipt| #[trigger]
                crate::sync::writes(
                    self.data(),
                    key,
                    remove_entry::<K, V>,
                    (value, change),
                    receipt,
                ) && self.records(change, receipt),
            obeys_key_model::<K>() ==> exists|found: Map<K, V>| value == #[trigger] entry(
                found,
                *key,
            ),
        opens_invariants [
            crate::sync::write_step(self.data(), key, remove_entry::<K, V>),
            self.log().step(ChangeLog::<MapChange<K, V>>::record),
        ]
    {
        let ((value, change), receipt) = self.shared.write(key, remove_entry::<K, V>);
        let ghost made = (value, change);
        if let Some(change) = change {
            self.shared.push_change(change, receipt);
        }
        assert(crate::sync::writes(self.data(), key, remove_entry::<K, V>, made, receipt));
        value
    }

    /// Takes out all entries. The changes from before are not told any more.
    pub fn clear(&self)
        ensures
            exists|change: Option<MapChange<K, V>>, receipt: Receipt| #[trigger]
                crate::sync::writes(self.data(), (), clear_entries::<K, V>, change, receipt) && (
                change matches Some(change) ==> crate::log::takes_step(
                    *self.log(),
                    LogStep::Restart(change),
                    receipt,
                )),
        opens_invariants [
            crate::sync::write_step(self.data(), (), clear_entries::<K, V>),
            self.log().step(ChangeLog::<MapChange<K, V>>::restart),
        ]
    {
        let (change, receipt) = self.shared.write((), clear_entries::<K, V>);
        let ghost made = change;
        if let Some(change) = change {
            self.shared.restart_changes(change, receipt);
        }
        assert(crate::sync::writes(self.data(), (), clear_entries::<K, V>, made, receipt));
    }

    /// Returns a clone of the value of `key`, if there is one in the map as it was found.
    /// The keys have to hash and compare as keys should for that to be known.
    pub fn get(&self, key: &K) -> (value: Option<V>)
        ensures
            crate::sync::reads(self.data(), key, get_entry::<K, V>, value),
            obeys_key_model::<K>() ==> exists|found: Map<K, V>| copies_entry(found, *key, value),
        opens_invariants none
    {
        self.shared.read(key, get_entry::<K, V>)
    }

    /// Returns `true` if there is an entry of `key` in the map as it was found.
    pub fn contains_key(&self, key: &K) -> (present: bool)
        ensures
            crate::sync::reads(self.data(), key, has_entry::<K, V>, present),
        opens_invariants none
    {
        self.shared.read(key, has_entry::<K, V>)
    }

    /// Returns the number of entries in the map as it was found. The keys have to hash and
    /// compare as keys should for that to be known.
    pub fn len(&self) -> (len: usize)
        ensures
            crate::sync::reads(self.data(), (), count_entries::<K, V>, len),
        opens_invariants none
    {
        self.shared.read((), count_entries::<K, V>)
    }

    /// Returns `true` if there are no entries in the map as it was found.
    pub fn is_empty(&self) -> (empty: bool)
        ensures
            crate::sync::reads(self.data(), (), lacks_entries::<K, V>, empty),
        opens_invariants none
    {
        self.shared.read((), lacks_entries::<K, V>)
    }

    /// Returns a clone of all entries.
    pub fn snapshot(&self) -> (entries: HashMap<K, V>)
        ensures
            crate::sync::reads(self.data(), (), clone_of::<HashMap<K, V>>, entries),
            exists|current: HashMap<K, V>| strictly_cloned(current, entries),
        opens_invariants none
    {
        self.shared.snapshot()
    }

    /// Runs `f` on the entries, and returns what it returned. No writer gets at them
    /// meanwhile.
    ///
    /// `f` runs while the lock is held, so it must not come back to the same collection.
    pub fn read<F, R>(&self, f: F) -> (result: R) where F: FnOnce(&HashMap<K, V>) -> R
        requires
            forall|entries: &HashMap<K, V>| call_requires(f, (entries,)),
        ensures
            crate::sync::reads(self.data(), f, run_on::<HashMap<K, V>, R, F>, result),
            exists|entries: &HashMap<K, V>| call_ensures(f, (entries,), result),
        opens_invariants none
    {
        self.shared.read(f, run_on::<HashMap<K, V>, R, F>)
    }

    /// Creates a watcher that receives change events.
    pub fn watch_changes(&self) -> (watcher: ChangeWatcher<MapChange<K, V>>)
        ensures
            watcher.source() == self.log(),
            crate::log::shows_epoch(*self.log(), watcher.last_epoch()),
        opens_invariants [self.log().step(lent_epoch::<MapChange<K, V>>)]
    {
        self.shared.watch_changes()
    }

    /// Returns `true` if there are any active watchers.
    ///
    /// How many there are is up to every thread that has one. The answer goes by a count of
    /// them.
    pub fn has_watchers(&self) -> (watched: bool)
        ensures
            crate::sync::answers_watched(self.log(), watched),
        opens_invariants none
    {
        self.shared.has_watchers()
    }
}

impl<K, V> Clone for WatchableMap<K, V> {
    fn clone(&self) -> (copy: Self)
        ensures
            copy == *self,
    {
        WatchableMap { shared: self.shared.clone() }
    }
}

impl<K: Eq + Hash + Clone, V: Clone> Default for WatchableMap<K, V> {
    fn default() -> (handle: Self)
        ensures
            handle.capacity() == DEFAULT_BUFFER_SIZE,
            handle.began_empty(),
    {
        Self::new()
    }
}

} // verus!
