//! Epochs: the counters by which a watcher tells that it is behind.
//!
//! A source starts at epoch 1 and moves on to the next epoch with every change. A
//! watcher remembers the epoch it has caught up with, and is behind exactly when
//! the source's epoch is greater.
use std::sync::atomic::{AtomicU64, Ordering};
use std::sync::Arc;

use vstd::prelude::*;

use crate::sync::{downgrade, Evidence, WeakRef};

verus! {

/// The epoch of a source that has not changed yet.
pub const FIRST_EPOCH: u64 = 1;

/// The epoch after `epoch`. Epochs wrap around at the end of `u64`.
pub open spec fn next_epoch(epoch: u64) -> u64 {
    if epoch == u64::MAX {
        0
    } else {
        (epoch + 1) as u64
    }
}

/// Moves `epoch` on by one change.
pub fn bump(epoch: &mut u64)
    ensures
        *final(epoch) == next_epoch(*old(epoch)),
{
    *epoch = epoch.wrapping_add(1);
}

/// Catches `last` up with `current`. Returns whether it was behind.
pub fn advance(last: &mut u64, current: u64) -> (behind: bool)
    ensures
        behind == (current > *old(last)),
        *final(last) == if behind {
            current
        } else {
            *old(last)
        },
    opens_invariants none
{
    if current > *last {
        *last = current;
        true
    } else {
        false
    }
}

/// A watcher that had caught up with `last` looks for the epoch of its source. It has
/// caught up with `after` then, and was behind or not, by what it found: an epoch, or
/// nothing if the source is gone.
pub open spec fn looks_at_epoch(last: u64, found: Option<u64>, after: u64, behind: bool) -> bool {
    match found {
        Some(current) => behind == (current > last) && after == if behind {
            current
        } else {
            last
        },
        None => !behind && after == last,
    }
}

/// A counter of changes that threads share. It can be read, and moved on by whoever has made a
/// change.
#[derive(Debug)]
pub struct Counter {
    count: AtomicU64,
}

/// A receipt for a look at a counter. What is done with it is done after the look.
pub struct Glance {
    number: u64,
}

/// The counter was made at the first epoch.
pub closed spec fn starts_counting(counter: Counter) -> bool {
    call_ensures(AtomicU64::new, (FIRST_EPOCH,), counter.count)
}

/// `epoch` is what `AtomicU64::load` gives for the counter. The receipt is for reading it.
pub closed spec fn shows_count(counter: Counter, epoch: u64, receipt: Glance) -> bool {
    call_ensures(signed_load, (&counter,), (epoch, receipt))
}

/// `AtomicU64::fetch_add` moved the counter on by one change, after what the receipt is for.
pub closed spec fn counts_after<P: Evidence>(counter: Counter, receipt: P) -> bool {
    call_ensures(late_count::<P>, (&counter, receipt), ())
}

/// Reads the counter, and gives a receipt for it.
fn signed_load(counter: &Counter) -> (signed: (u64, Glance))
    ensures
        call_ensures(AtomicU64::load, (&counter.count, Ordering::Acquire), signed.0),
{
    let epoch: u64 = counter.count.load(Ordering::Acquire);
    (epoch, Glance { number: 0 })
}

/// Moves the counter on, after what the receipt is for.
fn late_count<P: Evidence>(counter: &Counter, _receipt: P)
    ensures
        exists|before: u64|
            call_ensures(AtomicU64::fetch_add, (&counter.count, 1, Ordering::Release), before),
{
    let before: u64 = counter.count.fetch_add(1, Ordering::Release);
    assert(call_ensures(AtomicU64::fetch_add, (&counter.count, 1, Ordering::Release), before));
}

/// A counter at the first epoch.
pub(crate) fn new_counter() -> (counter: Counter)
    ensures
        starts_counting(counter),
{
    Counter { count: AtomicU64::new(FIRST_EPOCH) }
}

/// The epoch that the counter is at, with a receipt for reading it.
pub(crate) fn read_count(counter: &Counter) -> (signed: (u64, Glance))
    ensures
        shows_count(*counter, signed.0, signed.1),
{
    signed_load(counter)
}

/// Moves the counter on by one change, after what the receipt is for.
pub(crate) fn count_after<P: Evidence>(counter: &Counter, receipt: P)
    ensures
        counts_after(*counter, receipt),
{
    late_count(counter, receipt)
}

/// A weak reference to a counter that is only to be read.
///
/// The reference itself is private, so that whoever has it can look at the counter, and not move
/// it on.
pub struct CounterLink {
    reference: WeakRef<Counter>,
}

/// A counter that is only to be read.
pub struct Gauge {
    counter: Arc<Counter>,
}

impl CounterLink {
    /// The weak reference to the counter.
    pub closed spec fn reference(self) -> WeakRef<Counter> {
        self.reference
    }

    /// A reference to the counter.
    pub(crate) fn to(counter: &Arc<Counter>) -> (link: Self)
        ensures
            link.reference().target() == *counter,
        opens_invariants none
    {
        CounterLink { reference: downgrade(counter) }
    }

    /// The counter, or `None` once its last owner is gone.
    pub(crate) fn find(&self) -> (found: Option<Gauge>)
        ensures
            self.reference().gives(Gauge::counter_of(found)),
        opens_invariants none
    {
        match self.reference.find() {
            Some(counter) => Some(Gauge { counter }),
            None => None,
        }
    }
}

impl Clone for CounterLink {
    fn clone(&self) -> (copy: Self)
        ensures
            copy == *self,
    {
        CounterLink { reference: self.reference.clone() }
    }
}

impl Gauge {
    /// The counter itself.
    pub closed spec fn counter(self) -> Arc<Counter> {
        self.counter
    }

    /// The counter of what was found, if anything was.
    pub open spec fn counter_of(found: Option<Self>) -> Option<Arc<Counter>> {
        match found {
            Some(gauge) => Some(gauge.counter()),
            None => None,
        }
    }

    /// The epoch that the counter is at, with a receipt for reading it.
    pub(crate) fn read(&self) -> (signed: (u64, Glance))
        ensures
            shows_count(*self.counter(), signed.0, signed.1),
    {
        read_count(&self.counter)
    }
}

/// To have made, read or moved on a counter is to have called it.
proof fn law_counters_are_called<P: Evidence>(
    counter: Counter,
    epoch: u64,
    glance: Glance,
    receipt: P,
)
    ensures
        starts_counting(counter) ==> call_ensures(AtomicU64::new, (1,), counter.count),
        shows_count(counter, epoch, glance) ==> call_ensures(
            AtomicU64::load,
            (&counter.count, Ordering::Acquire),
            epoch,
        ),
        counts_after(counter, receipt) ==> exists|before: u64|
            call_ensures(AtomicU64::fetch_add, (&counter.count, 1, Ordering::Release), before),
{
}

/// A change moves a source to a greater epoch, so that every watcher that had
/// caught up with it, or was already behind, is behind now. The one exception is
/// the change that wraps the counter around.
pub proof fn law_change_leaves_watchers_behind(last: u64, epoch: u64)
    requires
        last <= epoch,
        epoch < u64::MAX,
    ensures
        next_epoch(epoch) > last,
{
}

} // verus!
