//! The map that only tells that it changed.
use std::collections::HashMap;
use std::hash::Hash;
use std::sync::Arc;

use parking_lot::RwLock;
use vstd::pervasive::strictly_cloned;
use vstd::prelude::*;
use vstd::std_specs::hash::obeys_key_model;

use crate::epoch_watcher::{EpochWatcher, LiteShared};
use crate::map::{count_entries, get_entry, has_entry, lacks_entries};
use crate::notifier::{lent_epoch, note_change, Notifier, NotifierStep, NotifierView};
use crate::sync::{clone_of, run_on, Guarded, Receipt};

verus! {

/// Takes out all entries. Returns whether there were any.
pub fn empty_out<K, V>(data: &mut HashMap<K, V>, _nothing: ()) -> (changed: bool)
    ensures
        changed == !old(data)@.is_empty(),
        final(data)@ == Map::<K, V>::empty(),
{
    if data.is_empty() {
        assert(data@ =~= Map::<K, V>::empty());
        return false;
    }
    data.clear();
    true
}

/// Stores the value of `pair` under its key. Returns the value that was there before. The keys
/// have to hash and compare as keys should for that to be known.
pub fn store_entry<K: Eq + Hash, V>(data: &mut HashMap<K, V>, pair: (K, V)) -> (before: Option<V>)
    ensures
        obeys_key_model::<K>() ==> {
            &&& before == crate::map::entry(old(data)@, pair.0)
            &&& final(data)@ == old(data)@.insert(pair.0, pair.1)
        },
{
    data.insert(pair.0, pair.1)
}

/// Takes out the entry of `key`. Returns its value, if there was one. The keys have to hash and
/// compare as keys should for that to be known.
pub fn take_entry<K: Eq + Hash, V>(data: &mut HashMap<K, V>, key: &K) -> (value: Option<V>)
    ensures
        obeys_key_model::<K>() ==> {
            &&& value == crate::map::entry(old(data)@, *key)
            &&& final(data)@ == old(data)@.remove(*key)
        },
{
    data.remove(key)
}

/// Lightweight observable HashMap (epoch-only, no change tracking). Its clones are handles
/// to the same entries.
#[derive(Debug)]
#[verifier::reject_recursive_types(K)]
#[verifier::reject_recursive_types(V)]
pub struct WatchableMapLite<K, V> {
    shared: LiteShared<HashMap<K, V>>,
}

impl<K: Eq + Hash, V> WatchableMapLite<K, V> {
    /// The lock around the entries that the handle shares with its clones.
    pub closed spec fn data(self) -> RwLock<HashMap<K, V>> {
        self.shared.data()
    }

    /// The notifier that the handle shares with its clones and its watchers.
    pub closed spec fn notifier(self) -> Arc<Guarded<Notifier>> {
        self.shared.notifier()
    }

    /// The lock behind the handle was made around no entries, its notifier before the first
    /// change.
    pub open spec fn began_empty(self) -> bool {
        &&& exists|entries: HashMap<K, V>| #[trigger]
            crate::sync::made_with(self.data(), entries) && entries@ == Map::<K, V>::empty()
        &&& exists|notifier: Notifier| #[trigger]
            self.notifier().made_around(notifier) && notifier@ == NotifierView::quiet()
    }

    /// The notifier took note of a change, after it was made, and the tasks that waited for one
    /// were woken. The receipt is for the change.
    pub open spec fn notifies(self, receipt: Receipt) -> bool {
        crate::notifier::takes_step(*self.notifier(), NotifierStep::Notify, receipt)
    }

    /// Creates an empty map, unchanged so far.
    pub fn new() -> (handle: Self)
        ensures
            handle.began_empty(),
    {
        let entries = HashMap::new();
        let ghost none = entries;
        let handle = WatchableMapLite { shared: LiteShared::new(entries) };
        assert(crate::sync::made_with(handle.data(), none));
        assert(handle.notifier() == handle.shared.notifier());
        handle
    }

    /// Stores `value` under `key`. Returns the value that was there before, in the map as
    /// it was found. The keys have to hash and compare as keys should for that to be known.
    pub fn insert(&self, key: K, value: V) -> (before: Option<V>)
        ensures
            exists|receipt: Receipt| #[trigger]
                crate::sync::writes(
                    self.data(),
                    (key, value),
                    store_entry::<K, V>,
                    before,
                    receipt,
                ) && self.notifies(receipt),
            obeys_key_model::<K>() ==> exists|found: Map<K, V>|
                before == #[trigger] crate::map::entry(found, key),
        opens_invariants [
            crate::sync::write_step(self.data(), (key, value), store_entry::<K, V>),
            self.notifier().step(note_change),
        ]
    {
        let (before, receipt) = self.shared.write((key, value), store_entry::<K, V>);
        self.shared.notify(receipt);
        assert(crate::sync::writes(
            self.data(),
            (key, value),
            store_entry::<K, V>,
            before,
            receipt,
        ));
        before
    }

    /// Takes out the entry of `key`. Returns its value, in the map as it was found. The
    /// keys have to hash and compare as keys should for that to be known.
    pub fn remove(&self, key: &K) -> (value: Option<V>)
        ensures
            exists|receipt: Receipt| #[trigger]
                crate::sync::writes(self.data(), key, take_entry::<K, V>, value, receipt) && (
                value is Some ==> self.notifies(receipt)),
            obeys_key_model::<K>() ==> exists|found: Map<K, V>|
                value == #[trigger] crate::map::entry(found, *key),
        opens_invariants [
            crate::sync::write_step(self.data(), key, take_entry::<K, V>),
            self.notifier().step(note_change),
        ]
    {
        let (value, receipt) = self.shared.write(key, take_entry::<K, V>);
        if let Some(_) = &value {
            self.shared.notify(receipt);
        }
        assert(crate::sync::writes(self.data(), key, take_entry::<K, V>, value, receipt));
        value
    }

    /// Takes out all entries.
    pub fn clear(&self)
        ensures
            exists|changed: bool, receipt: Receipt| #[trigger]
                crate::sync::writes(self.data(), (), empty_out::<K, V>, changed, receipt) && (
                changed ==> self.notifies(receipt)),
        opens_invariants [
            crate::sync::write_step(self.data(), (), empty_out::<K, V>),
            self.notifier().step(note_change),
        ]
    {
        let (changed, receipt) = self.shared.write((), empty_out::<K, V>);
        if changed {
            self.shared.notify(receipt);
        }
        assert(crate::sync::writes(self.data(), (), empty_out::<K, V>, changed, receipt));
    }

    /// Returns a clone of the value of `key`, if there is one in the map as it was found.
    /// The keys have to hash and compare as keys should for that to be known.
    pub fn get(&self, key: &K) -> (value: Option<V>) where V: Clone
        ensures
            crate::sync::reads(self.data(), key, get_entry::<K, V>, value),
            obeys_key_model::<K>() ==> exists|found: Map<K, V>|
                crate::map::copies_entry(found, *key, value),
        opens_invariants none
    {
        self.shared.read(key, get_entry::<K, V>)
    }

    /// Returns `true` if there is an entry of `key` in the map as it was found.
    pub fn contains_key(&self, key: &K) -> (present: bool)
        ensures
            crate::sync::reads(self.data(), key, has_entry::<K, V>, present),
        opens_invariants none
    {
        self.shared.read(key, has_entry::<K, V>)
    }

    /// Returns the number of entries in the map as it was found. The keys have to hash and
    /// compare as keys should for that to be known.
    pub fn len(&self) -> (len: usize)
        ensures
            crate::sync::reads(self.data(), (), count_entries::<K, V>, len),
        opens_invariants none
    {
        self.shared.read((), count_entries::<K, V>)
    }

    /// Returns `true` if there are no entries in the map as it was found.
    pub fn is_empty(&self) -> (empty: bool)
        ensures
            crate::sync::reads(self.data(), (), lacks_entries::<K, V>, empty),
        opens_invariants none
    {
        self.shared.read((), lacks_entries::<K, V>)
    }

    /// Returns a clone of all entries.
    pub fn snapshot(&self) -> (entries: HashMap<K, V>) where K: Clone, V: Clone
        ensures
            crate::sync::reads(self.data(), (), clone_of::<HashMap<K, V>>, entries),
            exists|current: HashMap<K, V>| strictly_cloned(current, entries),
        opens_invariants none
    {
        self.shared.snapshot()
    }

    /// Runs `f` on the entries, and returns what it returned. No writer gets at them
    /// meanwhile.
    ///
    /// `f` runs while the lock is held, so it must not come back to the same collection.
    pub fn read<F, R>(&self, f: F) -> (result: R) where F: FnOnce(&HashMap<K, V>) -> R
        requires
            forall|entries: &HashMap<K, V>| call_requires(f, (entries,)),
        ensures
            crate::sync::reads(self.data(), f, run_on::<HashMap<K, V>, R, F>, result),
            exists|entries: &HashMap<K, V>| call_ensures(f, (entries,), result),
        opens_invariants none
    {
        self.shared.read(f, run_on::<HashMap<K, V>, R, F>)
    }

    /// Creates a watcher that is told that something changed.
    pub fn watch(&self) -> (watcher: EpochWatcher)
        ensures
            watcher.source() == self.notifier(),
            crate::notifier::shows_epoch(*self.notifier(), watcher.last_epoch()),
        opens_invariants [self.notifier().step(lent_epoch)]
    {
        self.shared.watch()
    }
}

impl<K, V> Clone for WatchableMapLite<K, V> {
    fn clone(&self) -> (copy: Self)
        ensures
            copy == *self,
    {
        WatchableMapLite { shared: self.shared.clone() }
    }
}

impl<K: Eq + Hash, V> Default for WatchableMapLite<K, V> {
    fn default() -> (handle: Self)
        ensures
            handle.began_empty(),
    {
        Self::new()
    }
}

} // verus!
