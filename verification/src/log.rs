//! The log of changes that a collection or a value with history keeps for its
//! watchers.
//!
//! A log counts its changes by epochs and holds the latest of them in a bounded
//! queue. All watchers of one source collect from the same queue: what one of them
//! takes, the others miss. A watcher that gets fewer changes than the epochs say
//! there were is told that it missed some.
use std::collections::VecDeque;
use std::task::Waker;

use vstd::prelude::*;

use crate::epoch::{bump, FIRST_EPOCH};
use crate::queue::ChangeQueue;
use crate::sync::{Guarded, Kept, Receipt};

verus! {

/// A log of changes, and the tasks that wait for the next one.
#[verifier::reject_recursive_types(C)]
pub struct ChangeLog<C> {
    changes: ChangeQueue<C>,
    epoch: u64,
    waker_epoch: u64,
    has_watchers: bool,
    watchers: VecDeque<Waker>,
}

/// What a log holds.
#[verifier::ext_equal]
#[verifier::reject_recursive_types(C)]
pub struct LogView<C> {
    /// The changes that nobody has collected yet, the oldest first.
    pub changes: Seq<C>,
    /// How many of them there is room for.
    pub capacity: nat,
    /// How many changes there were, counted from the first epoch.
    pub epoch: u64,
    /// The epoch of the last change that woke tasks.
    pub waker_epoch: u64,
    /// Some task has waited before.
    pub has_watchers: bool,
    /// The tasks that wait.
    pub watchers: Seq<Waker>,
}

impl<C> LogView<C> {
    /// What always holds of a log: it keeps to its capacity, and no task was woken by a
    /// change that is yet to come.
    pub open spec fn wf(self) -> bool {
        &&& 0 < self.capacity
        &&& self.changes.len() <= self.capacity
        &&& self.waker_epoch <= self.epoch
        &&& !self.has_watchers ==> self.waker_epoch == 0
    }

    /// A log without changes.
    pub open spec fn empty(capacity: nat) -> Self {
        LogView {
            changes: Seq::empty(),
            capacity,
            epoch: FIRST_EPOCH,
            waker_epoch: 0,
            has_watchers: false,
            watchers: Seq::empty(),
        }
    }

    /// A change wakes the waiting tasks if there ever were any, unless a later change
    /// has woken them already.
    pub open spec fn wakes(self) -> bool {
        self.has_watchers && self.waker_epoch < crate::epoch::next_epoch(self.epoch)
    }

    /// The tasks that the next change wakes.
    pub open spec fn woken(self) -> Seq<Waker> {
        if self.wakes() {
            self.watchers
        } else {
            Seq::empty()
        }
    }

    /// The log after one more change. A full log does not take the change, and gives
    /// up its oldest one as well.
    pub open spec fn recorded(self, change: C) -> Self {
        LogView {
            changes: if self.changes.len() < self.capacity {
                self.changes.push(change)
            } else if self.changes.len() > 0 {
                self.changes.drop_first()
            } else {
                self.changes
            },
            capacity: self.capacity,
            epoch: crate::epoch::next_epoch(self.epoch),
            waker_epoch: if self.has_watchers {
                crate::epoch::next_epoch(self.epoch)
            } else {
                self.waker_epoch
            },
            has_watchers: self.has_watchers,
            watchers: if self.wakes() {
                Seq::empty()
            } else {
                self.watchers
            },
        }
    }

    /// The log without the changes it holds.
    pub open spec fn drained(self) -> Self {
        LogView { changes: Seq::empty(), ..self }
    }

    /// The log once a watcher that had caught up with `since` has collected.
    pub open spec fn collected(self, since: u64) -> Self {
        if since < self.epoch {
            self.drained()
        } else {
            self
        }
    }

    /// What a watcher that had caught up with `since` collects.
    pub open spec fn news(self, since: u64) -> Seq<C> {
        if since < self.epoch {
            self.changes
        } else {
            Seq::empty()
        }
    }

    /// A watcher that had caught up with `since` misses changes: it collects fewer than
    /// there were.
    pub open spec fn missed(self, since: u64) -> bool {
        since < self.epoch && self.changes.len() < self.epoch - since
    }

    /// The log once another task waits for the next change.
    pub open spec fn joined(self, waker: Waker) -> Self {
        LogView { has_watchers: true, watchers: self.watchers.push(waker), ..self }
    }
}

/// What is left over when a change is recorded.
#[verifier::reject_recursive_types(C)]
pub struct Aftermath<C> {
    /// The change, if the log was full.
    pub rejected: Option<C>,
    /// The oldest change, if the log was full.
    pub evicted: Option<C>,
    /// The tasks to wake.
    pub woken: VecDeque<Waker>,
}

/// What a watcher collects.
#[verifier::reject_recursive_types(C)]
pub struct Collected<C> {
    /// The changes, the oldest first.
    pub changes: Vec<C>,
    /// The epoch that the watcher has caught up with now.
    pub epoch: u64,
    /// There were more changes than these.
    pub missed: bool,
}

impl<C> Collected<C> {
    /// This is what a watcher that had caught up with `since` collects from `log`.
    pub open spec fn comes_from(self, log: LogView<C>, since: u64) -> bool {
        &&& self.changes@ == log.news(since)
        &&& self.epoch == log.epoch
        &&& self.missed == log.missed(since)
    }

    /// There is something to tell the watcher.
    pub open spec fn is_news(self) -> bool {
        self.changes@.len() > 0 || self.missed
    }
}

impl<C> View for ChangeLog<C> {
    type V = LogView<C>;

    closed spec fn view(&self) -> LogView<C> {
        LogView {
            changes: self.changes.items(),
            capacity: self.changes.capacity(),
            epoch: self.epoch,
            waker_epoch: self.waker_epoch,
            has_watchers: self.has_watchers,
            watchers: self.watchers@,
        }
    }
}

impl<C> Kept for ChangeLog<C> {
    /// The log is well-formed, and its limit is its capacity.
    open spec fn kept(&self, limit: usize) -> bool {
        self@.wf() && self@.capacity == limit
    }
}

impl<C> ChangeLog<C> {
    /// A log without changes, with room for `capacity` of them.
    pub fn new(capacity: usize) -> (log: Self)
        requires
            0 < capacity <= isize::MAX,
        ensures
            log@ == LogView::<C>::empty(capacity as nat),
            log@.wf(),
    {
        let log = ChangeLog {
            changes: ChangeQueue::new(capacity),
            epoch: FIRST_EPOCH,
            waker_epoch: 0,
            has_watchers: false,
            watchers: VecDeque::new(),
        };
        assert(log@ =~= LogView::<C>::empty(capacity as nat));
        log
    }

    /// The epoch of the last change.
    pub fn epoch(&self) -> (epoch: u64)
        ensures
            epoch == self@.epoch,
    {
        self.epoch
    }

    /// Records a change. Returns what is left over, for the caller to drop and to wake
    /// when nobody else is kept waiting.
    pub fn record(&mut self, change: C) -> (aftermath: Aftermath<C>)
        ensures
            final(self)@ == old(self)@.recorded(change),
            aftermath.woken@ == old(self)@.woken(),
            if old(self)@.changes.len() < old(self)@.capacity {
                aftermath.rejected is None && aftermath.evicted is None
            } else {
                &&& aftermath.rejected == Some(change)
                &&& aftermath.evicted == if old(self)@.changes.len() > 0 {
                    Some(old(self)@.changes[0])
                } else {
                    None
                }
            },
            old(self)@.wf() ==> final(self)@.wf(),
    {
        let mut rejected = None;
        let mut evicted = None;
        if let Err(refused) = self.changes.push(change) {
            rejected = Some(refused);
            evicted = self.changes.pop();
        }
        bump(&mut self.epoch);
        let mut woken = VecDeque::new();
        if self.has_watchers {
            let last = self.waker_epoch;
            self.waker_epoch = self.epoch;
            if last < self.epoch {
                std::mem::swap(&mut self.watchers, &mut woken);
            }
        }
        assert(self@ =~= old(self)@.recorded(change));
        Aftermath { rejected, evicted, woken }
    }

    /// Drops all the changes and records one in their place. Returns what was dropped,
    /// and what is left over.
    pub fn restart(&mut self, change: C) -> (result: (Vec<C>, Aftermath<C>))
        ensures
            final(self)@ == old(self)@.drained().recorded(change),
            result.0@ == old(self)@.changes,
            result.1.woken@ == old(self)@.woken(),
            old(self)@.capacity > 0 ==> result.1.rejected is None && result.1.evicted is None,
            old(self)@.wf() ==> final(self)@.wf(),
    {
        let dropped = self.changes.take_all();
        assert(self@ =~= old(self)@.drained());
        (dropped, self.record(change))
    }

    /// Collects the changes for a watcher that has caught up with `since`.
    pub fn collect(&mut self, since: u64) -> (collected: Collected<C>)
        ensures
            collected.comes_from(old(self)@, since),
            final(self)@ == old(self)@.collected(since),
            old(self)@.wf() ==> final(self)@.wf(),
    {
        let current = self.epoch;
        if since >= current {
            let collected = Collected { changes: Vec::new(), epoch: current, missed: false };
            assert(collected.changes@ =~= old(self)@.news(since));
            return collected;
        }
        let expected = current - since;
        let changes = self.changes.take_all();
        let missed = (changes.len() as u64) < expected;
        assert(self@ =~= old(self)@.collected(since));
        Collected { changes, epoch: current, missed }
    }

    /// Adds a task to be woken at the next change.
    pub fn register(&mut self, waker: Waker)
        ensures
            final(self)@ == old(self)@.joined(waker),
            old(self)@.wf() ==> final(self)@.wf(),
    {
        self.has_watchers = true;
        self.watchers.push_back(waker);
        assert(self@ =~= old(self)@.joined(waker));
    }
}

/// The epoch of the log that is lent out.
pub fn lent_epoch<C>(log: &mut ChangeLog<C>, _nothing: ()) -> (epoch: u64)
    ensures
        epoch == old(log)@.epoch,
        final(log)@ == old(log)@,
{
    log.epoch()
}

/// What can happen to a log in one go.
#[verifier::reject_recursive_types(C)]
pub enum LogStep<C> {
    /// A change is recorded.
    Record(C),
    /// A change is recorded in place of those that nobody has collected yet.
    Restart(C),
    /// A watcher that had caught up with this epoch collects.
    Collect(u64),
    /// A task begins to wait.
    Join(Waker),
}

/// A thread took this step on the log behind the mutex. Joining gives the receipt. The other
/// steps ask for it: they come after what the receipt is for. Where the thread recorded a change,
/// it woke the tasks that the log gave out.
pub open spec fn takes_step<C>(
    log: Guarded<ChangeLog<C>>,
    step: LogStep<C>,
    receipt: Receipt,
) -> bool {
    match step {
        LogStep::Record(change) => takes_down(log, change, receipt),
        LogStep::Restart(change) => starts_anew(log, change, receipt),
        LogStep::Collect(since) => exists|collected: Collected<C>| #[trigger]
            gives_out_after(log, since, receipt, collected),
        LogStep::Join(waker) => log.locks_first(waker, ChangeLog::<C>::register, (), receipt),
    }
}

/// Someone locked the mutex, recorded a change, and woke the tasks that the log gave out, after
/// what the receipt is for.
pub open spec fn takes_down<C>(log: Guarded<ChangeLog<C>>, change: C, receipt: Receipt) -> bool {
    exists|aftermath: Aftermath<C>| #[trigger]
        log.locks_after(change, ChangeLog::<C>::record, receipt, aftermath)
            && crate::sync::woke_all(aftermath.woken@)
}

/// Someone locked the mutex, recorded a change in place of all others, and woke the tasks that
/// the log gave out, after what the receipt is for.
pub open spec fn starts_anew<C>(log: Guarded<ChangeLog<C>>, change: C, receipt: Receipt) -> bool {
    exists|result: (Vec<C>, Aftermath<C>)| #[trigger]
        log.locks_after(change, ChangeLog::<C>::restart, receipt, result) && crate::sync::woke_all(
            result.1.woken@,
        )
}

/// `collected` is what a watcher that had caught up with `since` collects when it locks the
/// mutex.
pub open spec fn gives_out<C>(
    log: Guarded<ChangeLog<C>>,
    since: u64,
    collected: Collected<C>,
) -> bool {
    log.locks(since, ChangeLog::<C>::collect, collected)
}

/// `collected` is what a watcher that had caught up with `since` collects when it locks the
/// mutex, after what the receipt is for.
pub open spec fn gives_out_after<C>(
    log: Guarded<ChangeLog<C>>,
    since: u64,
    receipt: Receipt,
    collected: Collected<C>,
) -> bool {
    log.locks_after(since, ChangeLog::<C>::collect, receipt, collected)
}

/// `epoch` is the epoch that someone who locks the mutex finds behind it.
pub open spec fn shows_epoch<C>(log: Guarded<ChangeLog<C>>, epoch: u64) -> bool {
    log.locks((), lent_epoch::<C>, epoch)
}

} // verus!
