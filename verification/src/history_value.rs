//! The watchable that tells the old value along with the new one.
use std::sync::Arc;

use parking_lot::RwLock;
use vstd::pervasive::strictly_cloned;
use vstd::prelude::*;

use crate::change::ValueChange;
use crate::change_watcher::ChangeWatcher;
use crate::history::{HistoryShared, DEFAULT_BUFFER_SIZE};
use crate::log::{lent_epoch, ChangeLog, LogStep};
use crate::sync::{clone_of, run_on, Guarded, Receipt};

verus! {

impl<T: Clone> ValueChange<T> {
    /// The change tells of a value that was set: it holds the old value itself, and what was
    /// stored is a clone of the new value that it holds.
    pub open spec fn tells_set(self, before: T, after: T) -> bool {
        self.old == before && cloned(self.new, after)
    }

    /// The change tells of a value that was modified in place: it holds clones of the value
    /// before and of the value after.
    pub open spec fn tells_modified(self, before: T, after: T) -> bool {
        cloned(before, self.old) && cloned(after, self.new)
    }

    /// The change tells, up to cloning, that a value went from `before` to `after`.
    pub open spec fn tells(self, before: T, after: T) -> bool {
        self.tells_set(before, after) || self.tells_modified(before, after)
    }
}

/// Stores `value`. Returns the change from the old value to the new one.
pub fn replace_value<T: Clone>(data: &mut T, value: T) -> (change: ValueChange<T>)
    ensures
        strictly_cloned(value, *final(data)),
        change == (ValueChange { old: *old(data), new: value }),
        change.tells_set(*old(data), *final(data)),
{
    let mut old_value = value.clone();
    std::mem::swap(data, &mut old_value);
    ValueChange { old: old_value, new: value }
}

/// Changes the value in place with `f`. Returns what `f` returned, and the change from
/// the old value to the new one.
pub fn modify_value<T: Clone, F, R>(data: &mut T, f: F) -> (result: (R, ValueChange<T>)) where
    F: FnOnce(&mut T) -> R,

    requires
        forall|value: &mut T| *value == *old(data) ==> call_requires(f, (value,)),
    ensures
        exists|value: &mut T|
            {
                &&& *value == *old(data)
                &&& #[trigger] call_ensures(f, (value,), result.0)
                &&& *final(value) == *final(data)
            },
        strictly_cloned(*old(data), result.1.old),
        strictly_cloned(*final(data), result.1.new),
        result.1.tells_modified(*old(data), *final(data)),
{
    let old_value = data.clone();
    let answer = f(data);
    let new = data.clone();
    let result = (answer, ValueChange { old: old_value, new });
    assert(result.0 == answer);
    result
}

/// Setting and modifying a value tell what they did to the value that they found behind the
/// lock, by the change that they give for the log.
pub proof fn law_value_operations_tell<T: Clone, F, R>(value: T, f: F) where F: FnOnce(&mut T) -> R
    ensures
        forall|found: &mut T, change: ValueChange<T>| #[trigger]
            call_ensures(replace_value::<T>, (found, value), change) ==> change.tells(
                *found,
                *final(found),
            ),
        forall|found: &mut T, result: (R, ValueChange<T>)| #[trigger]
            call_ensures(modify_value::<T, F, R>, (found, f), result) ==> result.1.tells(
                *found,
                *final(found),
            ),
{
}

/// The history of a value has no gaps: of two changes in a row, the second one starts
/// from the value that the first one led to. This takes a type whose clones are
/// exact.
pub proof fn law_changes_chain<T: Clone>(
    first: ValueChange<T>,
    second: ValueChange<T>,
    start: T,
    middle: T,
    end: T,
)
    requires
        crate::change::clones_exactly::<T>(),
        first.tells(start, middle),
        second.tells(middle, end),
    ensures
        first.old == start,
        first.new == second.old,
        second.new == end,
{
}

/// Watchable that tracks the history of changes (old to new).
#[verifier::reject_recursive_types(T)]
pub struct WatchableWithHistory<T> {
    shared: HistoryShared<T, ValueChange<T>>,
}

impl<T: Clone> WatchableWithHistory<T> {
    /// The lock around the value that the handle shares with its clones.
    pub closed spec fn data(self) -> RwLock<T> {
        self.shared.data()
    }

    /// The log that the handle shares with its clones and its watchers.
    pub closed spec fn log(self) -> Arc<Guarded<ChangeLog<ValueChange<T>>>> {
        self.shared.log()
    }

    /// How many changes are held for watchers.
    pub open spec fn capacity(self) -> usize {
        self.log().limit()
    }

    /// Creates a new watchable with the given initial value.
    pub fn new(value: T) -> (handle: Self)
        ensures
            handle.capacity() == DEFAULT_BUFFER_SIZE,
            crate::sync::made_with(handle.data(), value),
            crate::history::began_empty(*handle.log()),
    {
        Self::with_capacity(value, DEFAULT_BUFFER_SIZE)
    }

    /// Creates a new watchable that holds up to `buffer_size` changes for its watchers.
    pub fn with_capacity(value: T, buffer_size: usize) -> (handle: Self)
        requires
            0 < buffer_size <= isize::MAX,
        ensures
            handle.capacity() == buffer_size,
            crate::sync::made_with(handle.data(), value),
            crate::history::began_empty(*handle.log()),
    {
        WatchableWithHistory { shared: HistoryShared::new(value, buffer_size) }
    }

    /// Sets a new value.
    pub fn set(&self, value: T)
        ensures
            exists|change: ValueChange<T>, receipt: Receipt| #[trigger]
                crate::sync::writes(self.data(), value, replace_value::<T>, change, receipt)
                    && crate::log::takes_step(*self.log(), LogStep::Record(change), receipt),
        opens_invariants [
            crate::sync::write_step(self.data(), value, replace_value::<T>),
            self.log().step(ChangeLog::<ValueChange<T>>::record),
        ]
    {
        let (change, receipt) = self.shared.write(value, replace_value::<T>);
        let ghost made = change;
        self.shared.push_change(change, receipt);
        assert(crate::sync::writes(self.data(), value, replace_value::<T>, made, receipt));
    }

    /// Returns a clone of the current value.
    pub fn get(&self) -> (value: T)
        ensures
            crate::sync::reads(self.data(), (), clone_of::<T>, value),
            exists|current: T| strictly_cloned(current, value),
        opens_invariants none
    {
        self.shared.snapshot()
    }

    /// Runs `f` on the current value, and returns what it returned. No writer gets at
    /// the value meanwhile.
    ///
    /// `f` runs while the lock is held, so it must not come back to the same watchable.
    pub fn read<F, R>(&self, f: F) -> (result: R) where F: FnOnce(&T) -> R
        requires
            forall|value: &T| call_requires(f, (value,)),
        ensures
            crate::sync::reads(self.data(), f, run_on::<T, R, F>, result),
            exists|value: &T| call_ensures(f, (value,), result),
        opens_invariants none
    {
        self.shared.read(f, run_on::<T, R, F>)
    }

    /// Modifies the value in place.
    ///
    /// `f` runs while the lock is held, so it must not come back to the same watchable.
    pub fn modify<F, R>(&self, f: F) -> (result: R) where F: FnOnce(&mut T) -> R
        requires
            forall|value: &mut T| call_requires(f, (value,)),
        ensures
            exists|change: ValueChange<T>, receipt: Receipt| #[trigger]
                crate::sync::writes(
                    self.data(),
                    f,
                    modify_value::<T, F, R>,
                    (result, change),
                    receipt,
                ) && crate::log::takes_step(*self.log(), LogStep::Record(change), receipt),
            exists|value: &mut T| call_ensures(f, (value,), result),
        opens_invariants [
            crate::sync::write_step(self.data(), f, modify_value::<T, F, R>),
            self.log().step(ChangeLog::<ValueChange<T>>::record),
        ]
    {
        let ((result, change), receipt) = self.shared.write(f, modify_value::<T, F, R>);
        let ghost made = (result, change);
        self.shared.push_change(change, receipt);
        assert(crate::sync::writes(self.data(), f, modify_value::<T, F, R>, made, receipt));
        result
    }

    /// Creates a watcher that receives change events.
    pub fn watch_changes(&self) -> (watcher: ChangeWatcher<ValueChange<T>>)
        ensures
            watcher.source() == self.log(),
            crate::log::shows_epoch(*self.log(), watcher.last_epoch()),
        opens_invariants [self.log().step(lent_epoch::<ValueChange<T>>)]
    {
        self.shared.watch_changes()
    }

    /// Returns `true` if there are any active watchers.
    ///
    /// How many there are is up to every thread that has one. The answer goes by a count of
    /// them.
    pub fn has_watchers(&self) -> (watched: bool)
        ensures
            crate::sync::answers_watched(self.log(), watched),
        opens_invariants none
    {
        self.shared.has_watchers()
    }
}

impl<T: Clone> Clone for WatchableWithHistory<T> {
    fn clone(&self) -> (copy: Self)
        ensures
            copy == *self,
    {
        WatchableWithHistory { shared: self.shared.clone() }
    }
}

impl<T: Clone + Default> Default for WatchableWithHistory<T> {
    fn default() -> (handle: Self)
        ensures
            handle.capacity() == DEFAULT_BUFFER_SIZE,
            exists|value: T| #[trigger]
                call_ensures(T::default, (), value) && crate::sync::made_with(handle.data(), value),
            crate::history::began_empty(*handle.log()),
    {
        Self::new(T::default())
    }
}

} // verus!
