//! The vec that only tells that it changed.
use std::sync::Arc;

use parking_lot::RwLock;
use vstd::pervasive::strictly_cloned;
use vstd::prelude::*;

use crate::epoch_watcher::{EpochWatcher, LiteShared};
use crate::notifier::{lent_epoch, note_change, Notifier, NotifierStep, NotifierView};
use crate::sync::{clone_of, run_on, Guarded, Receipt};
use crate::vec::{count_elements, get_cloned, lacks_elements};

verus! {

/// `value` is put before the element at `index`, which takes the elements from `found` to
/// `left`. Where there is no such place, it is handed back and the elements stay.
pub open spec fn puts_in<T>(
    found: Seq<T>,
    index: usize,
    value: T,
    left: Seq<T>,
    refused: Option<T>,
) -> bool {
    &&& left.len() <= usize::MAX
    &&& if index <= found.len() {
        refused is None && left == found.insert(index as int, value)
    } else {
        refused == Some(value) && left == found
    }
}

/// The element at `index` is replaced by `value`, which takes the elements from `found` to
/// `left`. Where there is no such element, `value` is handed back and the elements stay.
pub open spec fn puts_at<T>(
    found: Seq<T>,
    index: usize,
    value: T,
    left: Seq<T>,
    refused: Option<T>,
) -> bool {
    &&& left.len() <= usize::MAX
    &&& if index < found.len() {
        refused is None && left == found.update(index as int, value)
    } else {
        refused == Some(value) && left == found
    }
}

/// Adds `value` at the end.
pub fn put_last<T>(data: &mut Vec<T>, value: T)
    ensures
        final(data)@ == old(data)@.push(value),
{
    data.push(value)
}

/// Takes out the last element, if there is one.
pub fn take_last<T>(data: &mut Vec<T>, _nothing: ()) -> (value: Option<T>)
    ensures
        value == crate::vec::last_of(old(data)@),
        final(data)@ == if old(data)@.len() > 0 {
            old(data)@.drop_last()
        } else {
            old(data)@
        },
{
    data.pop()
}

/// Puts the value of `place` before the element at the index of `place`. Hands it back if there
/// is no such place.
pub fn put_in<T>(data: &mut Vec<T>, place: (usize, T)) -> (result: Result<(), T>)
    ensures
        puts_in(old(data)@, place.0, place.1, final(data)@, crate::vec::handed_back(result)),
{
    let (index, value) = place;
    if index > data.len() {
        return Err(value);
    }
    data.insert(index, value);
    assert(data@.len() == data.len());
    Ok(())
}

/// Takes out the element at `index`, if there is one.
pub fn take_out<T>(data: &mut Vec<T>, index: usize) -> (value: Option<T>)
    ensures
        value == crate::vec::element(old(data)@, index as int),
        final(data)@ == if index < old(data)@.len() {
            old(data)@.remove(index as int)
        } else {
            old(data)@
        },
{
    if index < data.len() {
        Some(data.remove(index))
    } else {
        None
    }
}

/// Replaces the element at the index of `place` by the value of `place`. Hands that back if there
/// is no such element.
pub fn put_at<T>(data: &mut Vec<T>, place: (usize, T)) -> (result: Result<(), T>)
    ensures
        puts_at(old(data)@, place.0, place.1, final(data)@, crate::vec::handed_back(result)),
{
    let (index, value) = place;
    if index >= data.len() {
        return Err(value);
    }
    data[index] = value;
    Ok(())
}

/// Takes out all elements. Returns whether there were any.
pub fn empty_out<T>(data: &mut Vec<T>, _nothing: ()) -> (changed: bool)
    ensures
        changed == (old(data)@.len() > 0),
        final(data)@ == Seq::<T>::empty(),
{
    if data.len() == 0 {
        assert(data@ =~= Seq::<T>::empty());
        return false;
    }
    data.clear();
    true
}

/// Lightweight observable Vec (epoch-only, no change tracking). Its clones are handles to
/// the same elements.
#[derive(Debug)]
#[verifier::reject_recursive_types(T)]
pub struct WatchableVecLite<T> {
    shared: LiteShared<Vec<T>>,
}

impl<T> WatchableVecLite<T> {
    /// The lock around the elements that the handle shares with its clones.
    pub closed spec fn data(self) -> RwLock<Vec<T>> {
        self.shared.data()
    }

    /// The notifier that the handle shares with its clones and its watchers.
    pub closed spec fn notifier(self) -> Arc<Guarded<Notifier>> {
        self.shared.notifier()
    }

    /// The lock behind the handle was made around no elements, its notifier before the first
    /// change.
    pub open spec fn began_empty(self) -> bool {
        &&& exists|elements: Vec<T>| #[trigger]
            crate::sync::made_with(self.data(), elements) && elements@ == Seq::<T>::empty()
        &&& exists|notifier: Notifier| #[trigger]
            self.notifier().made_around(notifier) && notifier@ == NotifierView::quiet()
    }

    /// The notifier took note of a change, after it was made, and the tasks that waited for one
    /// were woken. The receipt is for the change.
    pub open spec fn notifies(self, receipt: Receipt) -> bool {
        crate::notifier::takes_step(*self.notifier(), NotifierStep::Notify, receipt)
    }

    /// Creates an empty vec, unchanged so far.
    pub fn new() -> (handle: Self)
        ensures
            handle.began_empty(),
    {
        let elements = Vec::new();
        let ghost none = elements;
        let handle = WatchableVecLite { shared: LiteShared::new(elements) };
        assert(crate::sync::made_with(handle.data(), none));
        assert(handle.notifier() == handle.shared.notifier());
        handle
    }

    /// Adds `value` at the end.
    pub fn push(&self, value: T)
        ensures
            exists|receipt: Receipt| #[trigger]
                crate::sync::writes(self.data(), value, put_last::<T>, (), receipt)
                    && self.notifies(receipt),
        opens_invariants [
            crate::sync::write_step(self.data(), value, put_last::<T>),
            self.notifier().step(note_change),
        ]
    {
        let (_, receipt) = self.shared.write(value, put_last::<T>);
        self.shared.notify(receipt);
        assert(crate::sync::writes(self.data(), value, put_last::<T>, (), receipt));
    }

    /// Takes out the last element, if there is one among the elements as they were found.
    pub fn pop(&self) -> (value: Option<T>)
        ensures
            exists|receipt: Receipt| #[trigger]
                crate::sync::writes(self.data(), (), take_last::<T>, value, receipt) && (
                value is Some ==> self.notifies(receipt)),
            exists|found: Seq<T>| value == #[trigger] crate::vec::last_of(found),
        opens_invariants [
            crate::sync::write_step(self.data(), (), take_last::<T>),
            self.notifier().step(note_change),
        ]
    {
        let (value, receipt) = self.shared.write((), take_last::<T>);
        if let Some(_) = &value {
            self.shared.notify(receipt);
        }
        assert(crate::sync::writes(self.data(), (), take_last::<T>, value, receipt));
        value
    }

    /// Puts `value` before the element at `index` of the elements as they were found. Hands
    /// `value` back if there is no such place. There always is one at 0.
    pub fn insert(&self, index: usize, value: T) -> (result: Result<(), T>)
        ensures
            exists|receipt: Receipt| #[trigger]
                crate::sync::writes(self.data(), (index, value), put_in::<T>, result, receipt) && (
                result is Ok ==> self.notifies(receipt)),
            exists|found: Seq<T>, left: Seq<T>| #[trigger]
                puts_in(found, index, value, left, crate::vec::handed_back(result)),
        opens_invariants [
            crate::sync::write_step(self.data(), (index, value), put_in::<T>),
            self.notifier().step(note_change),
        ]
    {
        let (result, receipt) = self.shared.write((index, value), put_in::<T>);
        if let Ok(_) = &result {
            self.shared.notify(receipt);
        }
        assert(crate::sync::writes(self.data(), (index, value), put_in::<T>, result, receipt));
        result
    }

    /// Takes out the element at `index`, if there is one among the elements as they were
    /// found.
    pub fn remove(&self, index: usize) -> (value: Option<T>)
        ensures
            exists|receipt: Receipt| #[trigger]
                crate::sync::writes(self.data(), index, take_out::<T>, value, receipt) && (
                value is Some ==> self.notifies(receipt)),
            exists|found: Seq<T>| value == #[trigger] crate::vec::element(found, index as int),
        opens_invariants [
            crate::sync::write_step(self.data(), index, take_out::<T>),
            self.notifier().step(note_change),
        ]
    {
        let (value, receipt) = self.shared.write(index, take_out::<T>);
        if let Some(_) = &value {
            self.shared.notify(receipt);
        }
        assert(crate::sync::writes(self.data(), index, take_out::<T>, value, receipt));
        value
    }

    /// Replaces the element at `index` of the elements as they were found. Hands `value` back
    /// if there is no such element.
    pub fn set(&self, index: usize, value: T) -> (result: Result<(), T>)
        ensures
            exists|receipt: Receipt| #[trigger]
                crate::sync::writes(self.data(), (index, value), put_at::<T>, result, receipt) && (
                result is Ok ==> self.notifies(receipt)),
            exists|found: Seq<T>, left: Seq<T>| #[trigger]
                puts_at(found, index, value, left, crate::vec::handed_back(result)),
        opens_invariants [
            crate::sync::write_step(self.data(), (index, value), put_at::<T>),
            self.notifier().step(note_change),
        ]
    {
        let (result, receipt) = self.shared.write((index, value), put_at::<T>);
        if let Ok(_) = &result {
            self.shared.notify(receipt);
        }
        assert(crate::sync::writes(self.data(), (index, value), put_at::<T>, result, receipt));
        result
    }

    /// Takes out all elements.
    pub fn clear(&self)
        ensures
            exists|changed: bool, receipt: Receipt| #[trigger]
                crate::sync::writes(self.data(), (), empty_out::<T>, changed, receipt) && (changed
                    ==> self.notifies(receipt)),
        opens_invariants [
            crate::sync::write_step(self.data(), (), empty_out::<T>),
            self.notifier().step(note_change),
        ]
    {
        let (changed, receipt) = self.shared.write((), empty_out::<T>);
        if changed {
            self.shared.notify(receipt);
        }
        assert(crate::sync::writes(self.data(), (), empty_out::<T>, changed, receipt));
    }

    /// Returns a clone of the element at `index`, if there is one among the elements as
    /// they were found.
    pub fn get(&self, index: usize) -> (value: Option<T>) where T: Clone
        ensures
            crate::sync::reads(self.data(), index, get_cloned::<T>, value),
            exists|found: Seq<T>| crate::vec::copies_element(found, index as int, value),
        opens_invariants none
    {
        self.shared.read(index, get_cloned::<T>)
    }

    /// Returns the number of elements as they were found.
    pub fn len(&self) -> (len: usize)
        ensures
            crate::sync::reads(self.data(), (), count_elements::<T>, len),
        opens_invariants none
    {
        self.shared.read((), count_elements::<T>)
    }

    /// Returns `true` if there were no elements found.
    pub fn is_empty(&self) -> (empty: bool)
        ensures
            crate::sync::reads(self.data(), (), lacks_elements::<T>, empty),
        opens_invariants none
    {
        self.shared.read((), lacks_elements::<T>)
    }

    /// Returns a clone of all elements.
    pub fn snapshot(&self) -> (elements: Vec<T>) where T: Clone
        ensures
            crate::sync::reads(self.data(), (), clone_of::<Vec<T>>, elements),
            exists|current: Vec<T>| strictly_cloned(current, elements),
        opens_invariants none
    {
        self.shared.snapshot()
    }

    /// Runs `f` on the elements, and returns what it returned. No writer gets at them
    /// meanwhile.
    ///
    /// `f` runs while the lock is held, so it must not come back to the same collection.
    pub fn read<F, R>(&self, f: F) -> (result: R) where F: FnOnce(&Vec<T>) -> R
        requires
            forall|elements: &Vec<T>| call_requires(f, (elements,)),
        ensures
            crate::sync::reads(self.data(), f, run_on::<Vec<T>, R, F>, result),
            exists|elements: &Vec<T>| call_ensures(f, (elements,), result),
        opens_invariants none
    {
        self.shared.read(f, run_on::<Vec<T>, R, F>)
    }

    /// Creates a watcher that is told that something changed.
    pub fn watch(&self) -> (watcher: EpochWatcher)
        ensures
            watcher.source() == self.notifier(),
            crate::notifier::shows_epoch(*self.notifier(), watcher.last_epoch()),
        opens_invariants [self.notifier().step(lent_epoch)]
    {
        self.shared.watch()
    }
}

impl<T> Clone for WatchableVecLite<T> {
    fn clone(&self) -> (copy: Self)
        ensures
            copy == *self,
    {
        WatchableVecLite { shared: self.shared.clone() }
    }
}

impl<T> Default for WatchableVecLite<T> {
    fn default() -> (handle: Self)
        ensures
            handle.began_empty(),
    {
        Self::new()
    }
}

} // verus!
