//! Collections of values behind `Arc`, so that large values are not cloned.
use std::hash::Hash;
use std::sync::Arc;

use vstd::pervasive::strictly_cloned;
use vstd::prelude::*;
use vstd::std_specs::hash::obeys_key_model;

use crate::change::{MapChange, VecChange};
use crate::map::{insert_entry, WatchableMap};
use crate::sync::Receipt;
use crate::vec::{push_value, WatchableVec};

verus! {

/// Observable map with Arc-wrapped values.
pub type WatchableMapArc<K, V> = WatchableMap<K, Arc<V>>;

/// Observable vec with Arc-wrapped values.
pub type WatchableVecArc<T> = WatchableVec<Arc<T>>;

/// Helper trait for inserting non-Arc values into Arc-wrapped collections.
pub trait InsertArc<K, V> {
    /// Stores `value` under `key`. Returns the value that was there before.
    fn insert_arc(&self, key: K, value: V) -> Option<Arc<V>>;
}

impl<K: Eq + Hash + Clone, V> InsertArc<K, V> for WatchableMap<K, Arc<V>> {
    /// The value that was there before is the one in the map as it was found. The keys
    /// have to hash and compare as keys should for that to be known.
    fn insert_arc(&self, key: K, value: V) -> (before: Option<Arc<V>>)
        ensures
            exists|receipt: Receipt| #[trigger]
                crate::sync::writes(
                    self.data(),
                    (key, Arc::new(value)),
                    insert_entry::<K, Arc<V>>,
                    (before, MapChange::Insert { key, value: Arc::new(value) }),
                    receipt,
                ) && self.records(
                    Some(MapChange::Insert { key, value: Arc::new(value) }),
                    receipt,
                ),
            obeys_key_model::<K>() ==> exists|found: Map<K, Arc<V>>, stored: K|
                strictly_cloned(key, stored) && before == #[trigger] crate::map::entry(
                    found,
                    stored,
                ),
    {
        self.insert(key, Arc::new(value))
    }
}

/// Helper trait for pushing non-Arc values into Arc-wrapped vecs.
pub trait PushArc<T> {
    /// Adds `value` at the end.
    fn push_arc(&self, value: T);
}

impl<T> PushArc<T> for WatchableVec<Arc<T>> {
    fn push_arc(&self, value: T)
        ensures
            exists|receipt: Receipt| #[trigger]
                crate::sync::writes(
                    self.data(),
                    Arc::new(value),
                    push_value::<Arc<T>>,
                    VecChange::Push { value: Arc::new(value) },
                    receipt,
                ) && self.records(Some(VecChange::Push { value: Arc::new(value) }), receipt),
    {
        self.push(Arc::new(value));
    }
}

} // verus!
