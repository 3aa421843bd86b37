//! Data together with a log of its changes.
use std::sync::Arc;

use parking_lot::RwLock;
use vstd::pervasive::strictly_cloned;
use vstd::prelude::*;

use crate::change_watcher::{current_epoch, ChangeWatcher};
use crate::log::{lent_epoch, ChangeLog, LogStep, LogView};
use crate::sync::{
    clone_of, downgrade, is_watched, new_lock, read_with, wake_each, write_with, Guarded, Receipt,
};

verus! {

/// How many changes are held for watchers unless asked otherwise.
pub const DEFAULT_BUFFER_SIZE: usize = 1024;

/// A handle to data of type `D` and the log of its changes `C`. Its clones are handles
/// to the same data and the same log.
///
/// The two are behind locks of their own, so that a watcher can collect while someone
/// reads the data.
#[verifier::reject_recursive_types(D)]
#[verifier::reject_recursive_types(C)]
pub struct HistoryShared<D, C> {
    data: Arc<RwLock<D>>,
    log: Arc<Guarded<ChangeLog<C>>>,
}

impl<D, C> HistoryShared<D, C> {
    /// The lock around the data that the handle shares with its clones.
    pub closed spec fn data(self) -> RwLock<D> {
        *self.data
    }

    /// The log that the handle shares with its clones and its watchers.
    pub closed spec fn log(self) -> Arc<Guarded<ChangeLog<C>>> {
        self.log
    }

    /// How many changes the log has room for.
    pub open spec fn capacity(self) -> usize {
        self.log().limit()
    }

    /// The lock behind the handle is one that `RwLock::new` gives for `data`.
    pub open spec fn began_with(self, data: D) -> bool {
        crate::sync::made_with(self.data(), data)
    }

    /// Shares `data`, with a log that has room for `buffer_size` changes.
    pub fn new(data: D, buffer_size: usize) -> (shared: Self)
        requires
            0 < buffer_size <= isize::MAX,
        ensures
            shared.capacity() == buffer_size,
            shared.began_with(data),
            began_empty(*shared.log()),
    {
        let log = ChangeLog::new(buffer_size);
        let ghost empty = log;
        let shared = HistoryShared {
            data: Arc::new(new_lock(data)),
            log: Arc::new(Guarded::new(log, buffer_size)),
        };
        assert(shared.log().made_around(empty));
        shared
    }

    /// Runs `f` with `arg` on the data.
    pub fn read<A, R, F: FnOnce(&D, A) -> R>(&self, arg: A, f: F) -> (result: R)
        requires
            forall|data: &D| call_requires(f, (data, arg)),
        ensures
            crate::sync::reads(self.data(), arg, f, result),
            exists|data: &D| call_ensures(f, (data, arg), result),
        opens_invariants none
    {
        read_with(&self.data, arg, f)
    }

    /// Changes the data in place with `f` and `arg`. It is up to the caller to record the change,
    /// with the receipt for it.
    pub fn write<A, R, F: FnOnce(&mut D, A) -> R>(&self, arg: A, f: F) -> (signed: (R, Receipt))
        requires
            forall|data: &mut D| call_requires(f, (data, arg)),
        ensures
            crate::sync::writes(self.data(), arg, f, signed.0, signed.1),
            exists|data: &mut D| call_ensures(f, (data, arg), signed.0),
        opens_invariants [crate::sync::write_step(self.data(), arg, f)]
    {
        write_with(&self.data, arg, f)
    }

    /// Returns a clone of the data.
    pub fn snapshot(&self) -> (data: D) where D: Clone
        ensures
            crate::sync::reads(self.data(), (), clone_of::<D>, data),
            exists|current: D| strictly_cloned(current, data),
        opens_invariants none
    {
        read_with(&self.data, (), clone_of::<D>)
    }

    /// Records a change, which the receipt is for, and wakes the tasks that wait for one.
    pub fn push_change(&self, change: C, receipt: Receipt)
        ensures
            crate::log::takes_step(*self.log(), LogStep::Record(change), receipt),
        opens_invariants [self.log().step(ChangeLog::<C>::record)]
    {
        let aftermath = self.log.with_after(change, ChangeLog::<C>::record, receipt);
        let ghost left_over = aftermath;
        wake_each(aftermath.woken);
        assert(self.log().locks_after(change, ChangeLog::<C>::record, receipt, left_over));
        assert(crate::log::takes_down(*self.log(), change, receipt));
    }

    /// Records a change, which the receipt is for, in place of all those that nobody has collected
    /// yet, and wakes the tasks that wait for one.
    pub fn restart_changes(&self, change: C, receipt: Receipt)
        ensures
            crate::log::takes_step(*self.log(), LogStep::Restart(change), receipt),
        opens_invariants [self.log().step(ChangeLog::<C>::restart)]
    {
        let result = self.log.with_after(change, ChangeLog::<C>::restart, receipt);
        let ghost left_over = result;
        wake_each(result.1.woken);
        assert(self.log().locks_after(change, ChangeLog::<C>::restart, receipt, left_over));
        assert(crate::log::starts_anew(*self.log(), change, receipt));
    }

    /// Creates a watcher that receives change events.
    pub fn watch_changes(&self) -> (watcher: ChangeWatcher<C>)
        ensures
            watcher.source() == self.log(),
            crate::log::shows_epoch(*self.log(), watcher.last_epoch()),
        opens_invariants [self.log().step(lent_epoch::<C>)]
    {
        let last_epoch = current_epoch(&self.log);
        ChangeWatcher::new(downgrade(&self.log), last_epoch)
    }

    /// Returns `true` if there are any active watchers.
    ///
    /// How many there are is up to every thread that has one. The answer goes by a count of
    /// them.
    pub fn has_watchers(&self) -> (watched: bool)
        ensures
            crate::sync::answers_watched(self.log(), watched),
        opens_invariants none
    {
        is_watched(&self.log)
    }
}

/// The log was made without changes.
pub open spec fn began_empty<C>(log: Guarded<ChangeLog<C>>) -> bool {
    exists|empty: ChangeLog<C>| #[trigger]
        log.made_around(empty) && empty@ == LogView::<C>::empty(log.limit() as nat)
}

impl<D, C> Clone for HistoryShared<D, C> {
    fn clone(&self) -> (copy: Self)
        ensures
            copy == *self,
    {
        HistoryShared { data: self.data.clone(), log: self.log.clone() }
    }
}

} // verus!
