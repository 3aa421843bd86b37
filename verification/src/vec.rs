//! The vec that tells its changes.
use std::sync::Arc;

use parking_lot::RwLock;
use vstd::pervasive::strictly_cloned;
use vstd::prelude::*;

use crate::change::VecChange;
use crate::change_watcher::ChangeWatcher;
use crate::history::{HistoryShared, DEFAULT_BUFFER_SIZE};
use crate::log::{lent_epoch, ChangeLog, LogStep};
use crate::sync::{clone_of, run_on, Guarded, Receipt};

verus! {

/// Adds a clone of `value` at the end. Returns the change.
pub fn push_value<T: Clone>(data: &mut Vec<T>, value: T) -> (change: VecChange<T>)
    ensures
        change == (VecChange::Push { value }),
        change.tells(old(data)@, final(data)@),
{
    let stored = value.clone();
    data.push(stored);
    let change = VecChange::Push { value };
    assert(change.copies(VecChange::Push { value: stored }));
    change
}

/// Takes out the last element. Returns it, and the change if there was one.
pub fn pop_value<T: Clone>(data: &mut Vec<T>, _nothing: ()) -> (result: (
    Option<T>,
    Option<VecChange<T>>,
))
    ensures
        result.0 == last_of(old(data)@),
        match result.1 {
            Some(change) => {
                &&& old(data)@.len() > 0
                &&& change is Pop
                &&& change.tells(old(data)@, final(data)@)
            },
            None => old(data)@.len() == 0 && final(data)@ == old(data)@,
        },
{
    match data.pop() {
        Some(value) => {
            let change = VecChange::Pop;
            assert(change.copies(VecChange::Pop));
            assert(data@ =~= change.apply(old(data)@));
            (Some(value), Some(change))
        },
        None => (None, None),
    }
}

/// Puts a clone of the value of `place` before the element at the index of `place`. Returns the
/// change, or hands the value back if there is no such place.
pub fn insert_value<T: Clone>(data: &mut Vec<T>, place: (usize, T)) -> (result: Result<
    VecChange<T>,
    T,
>)
    ensures
        match result {
            Ok(change) => {
                &&& place.0 <= old(data)@.len()
                &&& change == (VecChange::Insert { index: place.0, value: place.1 })
                &&& change.tells(old(data)@, final(data)@)
            },
            Err(refused) => {
                &&& place.0 > old(data)@.len()
                &&& refused == place.1
                &&& final(data)@ == old(data)@
            },
        },
        inserts(old(data)@, place.0, place.1, final(data)@, handed_back(result)),
{
    let (index, value) = place;
    if index > data.len() {
        return Err(value);
    }
    let stored = value.clone();
    data.insert(index, stored);
    assert(strictly_cloned(value, stored) && data@.len() == data.len());
    let change = VecChange::Insert { index, value };
    assert(change.copies(VecChange::Insert { index, value: stored }));
    Ok(change)
}

/// Takes out the element at `index`. Returns it, and the change if there was one.
pub fn remove_value<T: Clone>(data: &mut Vec<T>, index: usize) -> (result: (
    Option<T>,
    Option<VecChange<T>>,
))
    ensures
        result.0 == element(old(data)@, index as int),
        match result.1 {
            Some(change) => {
                &&& index < old(data)@.len()
                &&& change == (VecChange::<T>::Remove { index })
                &&& change.tells(old(data)@, final(data)@)
            },
            None => index >= old(data)@.len() && final(data)@ == old(data)@,
        },
{
    if index >= data.len() {
        return (None, None);
    }
    let value = data.remove(index);
    let change = VecChange::Remove { index };
    assert(change.copies(VecChange::Remove { index }));
    (Some(value), Some(change))
}

/// Replaces the element at the index of `place` by a clone of the value of `place`. Returns the
/// change, or hands the value back if there is no such element.
pub fn replace_element<T: Clone>(data: &mut Vec<T>, place: (usize, T)) -> (result: Result<
    VecChange<T>,
    T,
>)
    ensures
        match result {
            Ok(change) => {
                &&& place.0 < old(data)@.len()
                &&& change == (VecChange::Replace { index: place.0, value: place.1 })
                &&& change.tells(old(data)@, final(data)@)
            },
            Err(refused) => {
                &&& place.0 >= old(data)@.len()
                &&& refused == place.1
                &&& final(data)@ == old(data)@
            },
        },
        replaces(old(data)@, place.0, place.1, final(data)@, handed_back(result)),
{
    let (index, value) = place;
    if index >= data.len() {
        return Err(value);
    }
    let stored = value.clone();
    data[index] = stored;
    let change = VecChange::Replace { index, value };
    assert(change.copies(VecChange::Replace { index, value: stored }));
    Ok(change)
}

/// Takes out all elements. Returns the change if there were any.
pub fn clear_values<T: Clone>(data: &mut Vec<T>, _nothing: ()) -> (change: Option<VecChange<T>>)
    ensures
        final(data)@ == Seq::<T>::empty(),
        match change {
            Some(change) => {
                &&& old(data)@.len() > 0
                &&& change is Clear
                &&& change.tells(old(data)@, final(data)@)
            },
            None => old(data)@.len() == 0,
        },
{
    if data.len() == 0 {
        assert(data@ =~= Seq::<T>::empty());
        return None;
    }
    data.clear();
    let change = VecChange::Clear;
    assert(change.copies(VecChange::Clear));
    Some(change)
}

/// What an operation hands back because it found no place for it.
pub open spec fn handed_back<A, T>(result: Result<A, T>) -> Option<T> {
    match result {
        Ok(_) => None,
        Err(refused) => Some(refused),
    }
}

/// What an operation comes to because it found a place for what it was given.
pub open spec fn accepted<A, T>(result: Result<A, T>) -> Option<A> {
    match result {
        Ok(done) => Some(done),
        Err(_) => None,
    }
}

/// A clone of `value` is put before the element at `index`, which takes the elements from
/// `found` to `left`. Where there is no such place, `value` is handed back and the elements
/// stay.
pub open spec fn inserts<T: Clone>(
    found: Seq<T>,
    index: usize,
    value: T,
    left: Seq<T>,
    refused: Option<T>,
) -> bool {
    &&& left.len() <= usize::MAX
    &&& if index <= found.len() {
        &&& refused is None
        &&& exists|stored: T| #[trigger]
            strictly_cloned(value, stored) && left == found.insert(index as int, stored)
    } else {
        refused == Some(value) && left == found
    }
}

/// The element at `index` is replaced by a clone of `value`, which takes the elements from
/// `found` to `left`. Where there is no such element, `value` is handed back and the elements
/// stay.
pub open spec fn replaces<T: Clone>(
    found: Seq<T>,
    index: usize,
    value: T,
    left: Seq<T>,
    refused: Option<T>,
) -> bool {
    &&& left.len() <= usize::MAX
    &&& if index < found.len() {
        &&& refused is None
        &&& exists|stored: T| #[trigger]
            strictly_cloned(value, stored) && left == found.update(index as int, stored)
    } else {
        refused == Some(value) && left == found
    }
}

/// The last element, if there is one.
pub open spec fn last_of<T>(elements: Seq<T>) -> Option<T> {
    element(elements, elements.len() - 1)
}

/// The element at `index`, if there is one.
pub open spec fn element<T>(elements: Seq<T>, index: int) -> Option<T> {
    if 0 <= index < elements.len() {
        Some(elements[index])
    } else {
        None
    }
}

/// `copy` is a clone of the element at `index`, if there is one.
pub open spec fn copies_element<T: Clone>(elements: Seq<T>, index: int, copy: Option<T>) -> bool {
    match copy {
        Some(copy) => 0 <= index < elements.len() && strictly_cloned(elements[index], copy),
        None => !(0 <= index < elements.len()),
    }
}

/// A clone of the element at `index`, if there is one.
pub fn get_cloned<T: Clone>(data: &Vec<T>, index: usize) -> (value: Option<T>)
    ensures
        copies_element(data@, index as int, value),
{
    if index < data.len() {
        Some(data[index].clone())
    } else {
        None
    }
}

/// The number of elements.
pub fn count_elements<T>(data: &Vec<T>, _nothing: ()) -> (len: usize)
    ensures
        len == data@.len(),
{
    data.len()
}

/// Whether there are no elements.
pub fn lacks_elements<T>(data: &Vec<T>, _nothing: ()) -> (empty: bool)
    ensures
        empty == (data@.len() == 0),
{
    data.len() == 0
}

/// Observable Vec with change tracking. Its clones are handles to the same elements.
#[verifier::reject_recursive_types(T)]
pub struct WatchableVec<T> {
    shared: HistoryShared<Vec<T>, VecChange<T>>,
}

impl<T: Clone> WatchableVec<T> {
    /// The lock around the elements that the handle shares with its clones.
    pub closed spec fn data(self) -> RwLock<Vec<T>> {
        self.shared.data()
    }

    /// The log that the handle shares with its clones and its watchers.
    pub closed spec fn log(self) -> Arc<Guarded<ChangeLog<VecChange<T>>>> {
        self.shared.log()
    }

    /// How many changes are held for watchers.
    pub open spec fn capacity(self) -> usize {
        self.log().limit()
    }

    /// The lock behind the handle was made around no elements, its log without changes.
    pub open spec fn began_empty(self) -> bool {
        &&& exists|elements: Vec<T>| #[trigger]
            crate::sync::made_with(self.data(), elements) && elements@ == Seq::<T>::empty()
        &&& crate::history::began_empty(*self.log())
    }

    /// A change, which the receipt is for, was recorded after it was made, if there was one.
    pub open spec fn records(self, change: Option<VecChange<T>>, receipt: Receipt) -> bool {
        change matches Some(change) ==> crate::log::takes_step(
            *self.log(),
            LogStep::Record(change),
            receipt,
        )
    }

    /// Creates an empty vec.
    pub fn new() -> (handle: Self)
        ensures
            handle.capacity() == DEFAULT_BUFFER_SIZE,
            handle.began_empty(),
    {
        Self::with_capacity(DEFAULT_BUFFER_SIZE)
    }

    /// Creates an empty vec that holds up to `buffer_size` changes for its watchers.
    pub fn with_capacity(buffer_size: usize) -> (handle: Self)
        requires
            0 < buffer_size <= isize::MAX,
        ensures
            handle.capacity() == buffer_size,
            handle.began_empty(),
    {
        let elements = Vec::new();
        let ghost none = elements;
        let handle = WatchableVec { shared: HistoryShared::new(elements, buffer_size) };
        assert(crate::sync::made_with(handle.data(), none));
        handle
    }

    /// Adds `value` at the end.
    pub fn push(&self, value: T)
        ensures
            exists|receipt: Receipt| #[trigger]
                crate::sync::writes(
                    self.data(),
                    value,
                    push_value::<T>,
                    VecChange::Push { value },
                    receipt,
                ) && self.records(Some(VecChange::Push { value }), receipt),
        opens_invariants [
            crate::sync::write_step(self.data(), value, push_value::<T>),
            self.log().step(ChangeLog::<VecChange<T>>::record),
        ]
    {
        let (change, receipt) = self.shared.write(value, push_value::<T>);
        let ghost made = change;
        self.shared.push_change(change, receipt);
        assert(crate::sync::writes(self.data(), value, push_value::<T>, made, receipt));
    }

    /// Takes out the last element, if there is one among the elements as they were found.
    pub fn pop(&self) -> (value: Option<T>)
        ensures
            exists|change: Option<VecChange<T>>, receipt: Receipt| #[trigger]
                crate::sync::writes(self.data(), (), pop_value::<T>, (value, change), receipt)
                    && self.records(change, receipt),
            exists|found: Seq<T>| value == #[trigger] last_of(found),
        opens_invariants [
            crate::sync::write_step(self.data(), (), pop_value::<T>),
            self.log().step(ChangeLog::<VecChange<T>>::record),
        ]
    {
        let ((value, change), receipt) = self.shared.write((), pop_value::<T>);
        let ghost made = (value, change);
        self.push_if_changed(change, receipt);
        assert(crate::sync::writes(self.data(), (), pop_value::<T>, made, receipt));
        value
    }

    /// Puts `value` before the element at `index` of the elements as they were found. Hands
    /// `value` back if there is no such place. There always is one at 0.
    pub fn insert(&self, index: usize, value: T) -> (result: Result<(), T>)
        ensures
            exists|made: Result<VecChange<T>, T>, receipt: Receipt| #[trigger]
                crate::sync::writes(self.data(), (index, value), insert_value::<T>, made, receipt)
                    && self.records(accepted(made), receipt) && handed_back(result) == handed_back(
                    made,
                ),
            exists|found: Seq<T>, left: Seq<T>| #[trigger]
                inserts(found, index, value, left, handed_back(result)),
        opens_invariants [
            crate::sync::write_step(self.data(), (index, value), insert_value::<T>),
            self.log().step(ChangeLog::<VecChange<T>>::record),
        ]
    {
        let (made, receipt) = self.shared.write((index, value), insert_value::<T>);
        assert(crate::sync::writes(self.data(), (index, value), insert_value::<T>, made, receipt));
        let ghost (found, left) = choose|found: Seq<T>, left: Seq<T>| #[trigger]
            inserts(found, index, value, left, handed_back(made));
        assert(inserts(found, index, value, left, handed_back(made)));
        match made {
            Ok(change) => {
                self.shared.push_change(change, receipt);
                Ok(())
            },
            Err(refused) => Err(refused),
        }
    }

    /// Takes out the element at `index`, if there is one among the elements as they were
    /// found.
    pub fn remove(&self, index: usize) -> (value: Option<T>)
        ensures
            exists|change: Option<VecChange<T>>, receipt: Receipt| #[trigger]
                crate::sync::writes(self.data(), index, remove_value::<T>, (value, change), receipt)
                    && self.records(change, receipt),
            exists|found: Seq<T>| value == #[trigger] element(found, index as int),
        opens_invariants [
            crate::sync::write_step(self.data(), index, remove_value::<T>),
            self.log().step(ChangeLog::<VecChange<T>>::record),
        ]
    {
        let ((value, change), receipt) = self.shared.write(index, remove_value::<T>);
        let ghost made = (value, change);
        self.push_if_changed(change, receipt);
        assert(crate::sync::writes(self.data(), index, remove_value::<T>, made, receipt));
        value
    }

    /// Replaces the element at `index` of the elements as they were found. Hands `value` back
    /// if there is no such element.
    pub fn set(&self, index: usize, value: T) -> (result: Result<(), T>)
        ensures
            exists|made: Result<VecChange<T>, T>, receipt: Receipt| #[trigger]
                crate::sync::writes(
                    self.data(),
                    (index, value),
                    replace_element::<T>,
                    made,
                    receipt,
                ) && self.records(accepted(made), receipt) && handed_back(result) == handed_back(
                    made,
                ),
            exists|found: Seq<T>, left: Seq<T>| #[trigger]
                replaces(found, index, value, left, handed_back(result)),
        opens_invariants [
            crate::sync::write_step(self.data(), (index, value), replace_element::<T>),
            self.log().step(ChangeLog::<VecChange<T>>::record),
        ]
    {
        let (made, receipt) = self.shared.write((index, value), replace_element::<T>);
        assert(crate::sync::writes(
            self.data(),
            (index, value),
            replace_element::<T>,
            made,
            receipt,
        ));
        let ghost (found, left) = choose|found: Seq<T>, left: Seq<T>| #[trigger]
            replaces(found, index, value, left, handed_back(made));
        assert(replaces(found, index, value, left, handed_back(made)));
        match made {
            Ok(change) => {
                self.shared.push_change(change, receipt);
                Ok(())
            },
            Err(refused) => Err(refused),
        }
    }

    /// Takes out all elements. The changes from before are not told any more.
    pub fn clear(&self)
        ensures
            exists|change: Option<VecChange<T>>, receipt: Receipt| #[trigger]
                crate::sync::writes(self.data(), (), clear_values::<T>, change, receipt) && (
                change matches Some(change) ==> crate::log::takes_step(
                    *self.log(),
                    LogStep::Restart(change),
                    receipt,
                )),
        opens_invariants [
            crate::sync::write_step(self.data(), (), clear_values::<T>),
            self.log().step(ChangeLog::<VecChange<T>>::restart),
        ]
    {
        let (change, receipt) = self.shared.write((), clear_values::<T>);
        let ghost made = change;
        if let Some(change) = change {
            self.shared.restart_changes(change, receipt);
        }
        assert(crate::sync::writes(self.data(), (), clear_values::<T>, made, receipt));
    }

    /// Returns a clone of the element at `index`, if there is one among the elements as
    /// they were found.
    pub fn get(&self, index: usize) -> (value: Option<T>)
        ensures
            crate::sync::reads(self.data(), index, get_cloned::<T>, value),
            exists|found: Seq<T>| copies_element(found, index as int, value),
        opens_invariants none
    {
        self.shared.read(index, get_cloned::<T>)
    }

    /// Returns the number of elements as they were found.
    pub fn len(&self) -> (len: usize)
        ensures
            crate::sync::reads(self.data(), (), count_elements::<T>, len),
        opens_invariants none
    {
        self.shared.read((), count_elements::<T>)
    }

    /// Returns `true` if there were no elements found.
    pub fn is_empty(&self) -> (empty: bool)
        ensures
            crate::sync::reads(self.data(), (), lacks_elements::<T>, empty),
        opens_invariants none
    {
        self.shared.read((), lacks_elements::<T>)
    }

    /// Returns a clone of all elements.
    pub fn snapshot(&self) -> (elements: Vec<T>)
        ensures
            crate::sync::reads(self.data(), (), clone_of::<Vec<T>>, elements),
            exists|current: Vec<T>| strictly_cloned(current, elements),
        opens_invariants none
    {
        self.shared.snapshot()
    }

    /// Runs `f` on the elements, and returns what it returned. No writer gets at them
    /// meanwhile.
    ///
    /// `f` runs while the lock is held, so it must not come back to the same collection.
    pub fn read<F, R>(&self, f: F) -> (result: R) where F: FnOnce(&Vec<T>) -> R
        requires
            forall|elements: &Vec<T>| call_requires(f, (elements,)),
        ensures
            crate::sync::reads(self.data(), f, run_on::<Vec<T>, R, F>, result),
            exists|elements: &Vec<T>| call_ensures(f, (elements,), result),
        opens_invariants none
    {
        self.shared.read(f, run_on::<Vec<T>, R, F>)
    }

    /// Creates a watcher that receives change events.
    pub fn watch_changes(&self) -> (watcher: ChangeWatcher<VecChange<T>>)
        ensures
            watcher.source() == self.log(),
            crate::log::shows_epoch(*self.log(), watcher.last_epoch()),
        opens_invariants [self.log().step(lent_epoch::<VecChange<T>>)]
    {
        self.shared.watch_changes()
    }

    /// Returns `true` if there are any active watchers.
    ///
    /// How many there are is up to every thread that has one. The answer goes by a count of
    /// them.
    pub fn has_watchers(&self) -> (watched: bool)
        ensures
            crate::sync::answers_watched(self.log(), watched),
        opens_invariants none
    {
        self.shared.has_watchers()
    }

    /// Records a change, which the receipt is for, if there was one.
    fn push_if_changed(&self, change: Option<VecChange<T>>, receipt: Receipt)
        ensures
            self.records(change, receipt),
        opens_invariants [self.log().step(ChangeLog::<VecChange<T>>::record)]
    {
        if let Some(change) = change {
            self.shared.push_change(change, receipt);
        }
    }
}

impl<T> Clone for WatchableVec<T> {
    fn clone(&self) -> (copy: Self)
        ensures
            copy == *self,
    {
        WatchableVec { shared: self.shared.clone() }
    }
}

impl<T: Clone> Default for WatchableVec<T> {
    fn default() -> (handle: Self)
        ensures
            handle.capacity() == DEFAULT_BUFFER_SIZE,
            handle.began_empty(),
    {
        Self::new()
    }
}

} // verus!
