//! The changes that collections and values with history record.
use vstd::prelude::*;

verus! {

/// Change event for map operations.
#[derive(Debug, PartialEq, Eq)]
pub enum MapChange<K, V> {
    /// `value` was stored under `key`.
    Insert { key: K, value: V },
    /// The entry of `key` was taken out.
    Remove { key: K },
    /// All entries were taken out.
    Clear,
}

/// Change event for vec operations.
#[derive(Debug, PartialEq, Eq)]
pub enum VecChange<T> {
    /// `value` was added at the end.
    Push { value: T },
    /// The last element was taken out.
    Pop,
    /// `value` was put before the element at `index`.
    Insert { index: usize, value: T },
    /// The element at `index` was taken out.
    Remove { index: usize },
    /// The element at `index` was replaced by `value`.
    Replace { index: usize, value: T },
    /// All elements were taken out.
    Clear,
}

/// Change record with old and new values.
#[derive(Debug, PartialEq, Eq)]
pub struct ValueChange<T> {
    /// The value before.
    pub old: T,
    /// The value after.
    pub new: T,
}

impl<K, V> MapChange<K, V> {
    /// What becomes of a map by this change.
    pub open spec fn apply(self, map: Map<K, V>) -> Map<K, V> {
        match self {
            MapChange::Insert { key, value } => map.insert(key, value),
            MapChange::Remove { key } => map.remove(key),
            MapChange::Clear => Map::empty(),
        }
    }
}

impl<T> VecChange<T> {
    /// The change can happen to `elements`.
    pub open spec fn fits(self, elements: Seq<T>) -> bool {
        match self {
            VecChange::Push { .. } | VecChange::Clear => true,
            VecChange::Pop => elements.len() > 0,
            VecChange::Insert { index, .. } => index <= elements.len(),
            VecChange::Remove { index } => index < elements.len(),
            VecChange::Replace { index, .. } => index < elements.len(),
        }
    }

    /// What becomes of some elements by this change.
    pub open spec fn apply(self, elements: Seq<T>) -> Seq<T> {
        match self {
            VecChange::Push { value } => elements.push(value),
            VecChange::Pop => elements.drop_last(),
            VecChange::Insert { index, value } => elements.insert(index as int, value),
            VecChange::Remove { index } => elements.remove(index as int),
            VecChange::Replace { index, value } => elements.update(index as int, value),
            VecChange::Clear => Seq::empty(),
        }
    }
}

impl<K: Clone, V: Clone> MapChange<K, V> {
    /// `copy` was cloned from this change.
    pub open spec fn copies(self, copy: Self) -> bool {
        match self {
            MapChange::Insert { key, value } => {
                &&& copy matches MapChange::Insert { key: key_copy, value: value_copy }
                &&& cloned(key, key_copy)
                &&& cloned(value, value_copy)
            },
            MapChange::Remove { key } => {
                &&& copy matches MapChange::Remove { key: key_copy }
                &&& cloned(key, key_copy)
            },
            MapChange::Clear => copy is Clear,
        }
    }

    /// The change tells, up to cloning, how a map went from `before` to `after`. What is
    /// inserted is a clone of what the change holds; the key that a removal holds is a clone of
    /// the key that was given.
    pub open spec fn tells(self, before: Map<K, V>, after: Map<K, V>) -> bool {
        match self {
            MapChange::Insert { key, value } => exists|stored_key: K, stored_value: V|
                #![trigger before.insert(stored_key, stored_value)]
                {
                    &&& cloned(key, stored_key)
                    &&& cloned(value, stored_value)
                    &&& after == before.insert(stored_key, stored_value)
                },
            MapChange::Remove { key } => exists|given: K|
                #![trigger before.remove(given)]
                cloned(given, key) && after == before.remove(given),
            MapChange::Clear => after == Map::<K, V>::empty(),
        }
    }
}

impl<K: Clone, V: Clone> Clone for MapChange<K, V> {
    fn clone(&self) -> (copy: Self)
        ensures
            self.copies(copy),
    {
        match self {
            MapChange::Insert { key, value } => MapChange::Insert {
                key: key.clone(),
                value: value.clone(),
            },
            MapChange::Remove { key } => MapChange::Remove { key: key.clone() },
            MapChange::Clear => MapChange::Clear,
        }
    }
}

impl<T: Clone> VecChange<T> {
    /// `copy` was cloned from this change.
    pub open spec fn copies(self, copy: Self) -> bool {
        match self {
            VecChange::Push { value } => {
                &&& copy matches VecChange::Push { value: value_copy }
                &&& cloned(value, value_copy)
            },
            VecChange::Insert { index, value } => {
                &&& copy matches VecChange::Insert { index: index_copy, value: value_copy }
                &&& index_copy == index
                &&& cloned(value, value_copy)
            },
            VecChange::Replace { index, value } => {
                &&& copy matches VecChange::Replace { index: index_copy, value: value_copy }
                &&& index_copy == index
                &&& cloned(value, value_copy)
            },
            _ => copy == self,
        }
    }

    /// The change tells, up to cloning, how some elements went from `before` to `after`.
    pub open spec fn tells(self, before: Seq<T>, after: Seq<T>) -> bool {
        exists|copy: Self| #[trigger]
            self.copies(copy) && copy.fits(before) && after == copy.apply(before)
    }
}

impl<T: Clone> Clone for VecChange<T> {
    fn clone(&self) -> (copy: Self)
        ensures
            self.copies(copy),
    {
        match self {
            VecChange::Push { value } => VecChange::Push { value: value.clone() },
            VecChange::Pop => VecChange::Pop,
            VecChange::Insert { index, value } => VecChange::Insert {
                index: *index,
                value: value.clone(),
            },
            VecChange::Remove { index } => VecChange::Remove { index: *index },
            VecChange::Replace { index, value } => VecChange::Replace {
                index: *index,
                value: value.clone(),
            },
            VecChange::Clear => VecChange::Clear,
        }
    }
}

impl<T: Clone> Clone for ValueChange<T> {
    fn clone(&self) -> (copy: Self)
        ensures
            cloned(self.old, copy.old),
            cloned(self.new, copy.new),
    {
        ValueChange { old: self.old.clone(), new: self.new.clone() }
    }
}

/// A clone of a value is the value itself.
pub open spec fn clones_exactly<T: Clone>() -> bool {
    forall|a: T, b: T| #[trigger] cloned(a, b) ==> a == b
}

/// What becomes of some elements by several changes, the first of them first.
pub open spec fn replay_vec<T>(elements: Seq<T>, changes: Seq<VecChange<T>>) -> Seq<T>
    decreases changes.len(),
{
    if changes.len() == 0 {
        elements
    } else {
        changes.last().apply(replay_vec(elements, changes.drop_last()))
    }
}

/// What becomes of a map by several changes, the first of them first.
pub open spec fn replay_map<K, V>(map: Map<K, V>, changes: Seq<MapChange<K, V>>) -> Map<K, V>
    decreases changes.len(),
{
    if changes.len() == 0 {
        map
    } else {
        changes.last().apply(replay_map(map, changes.drop_last()))
    }
}

/// The changes of a vec tell all of it: whoever has the elements from before and gets
/// every change since can rebuild the elements. This takes a type whose clones are
/// exact.
pub proof fn law_vec_changes_replay<T: Clone>(states: Seq<Seq<T>>, changes: Seq<VecChange<T>>)
    requires
        clones_exactly::<T>(),
        states.len() == changes.len() + 1,
        forall|i: int|
            0 <= i < changes.len() ==> (#[trigger] changes[i]).tells(states[i], states[i + 1]),
    ensures
        replay_vec(states.first(), changes) == states.last(),
    decreases changes.len(),
{
    if changes.len() > 0 {
        let last = changes.len() - 1;
        law_vec_changes_replay(states.drop_last(), changes.drop_last());
        assert(changes[last].tells(states[last], states[last + 1]));
        let copy = choose|copy: VecChange<T>| #[trigger]
            changes[last].copies(copy) && copy.fits(states[last]) && states[last + 1]
                == copy.apply(states[last]);
        assert(copy == changes[last]);
    }
}

/// The changes of a map tell all of it: whoever has the entries from before and gets
/// every change since can rebuild the entries. This takes types whose clones are
/// exact.
pub proof fn law_map_changes_replay<K: Clone, V: Clone>(
    states: Seq<Map<K, V>>,
    changes: Seq<MapChange<K, V>>,
)
    requires
        clones_exactly::<K>(),
        clones_exactly::<V>(),
        states.len() == changes.len() + 1,
        forall|i: int|
            0 <= i < changes.len() ==> (#[trigger] changes[i]).tells(states[i], states[i + 1]),
    ensures
        replay_map(states.first(), changes) == states.last(),
    decreases changes.len(),
{
    if changes.len() > 0 {
        let last = changes.len() - 1;
        law_map_changes_replay(states.drop_last(), changes.drop_last());
        assert(changes[last].tells(states[last], states[last + 1]));
        assert(states[last + 1] == changes[last].apply(states[last]));
    }
}

} // verus!
