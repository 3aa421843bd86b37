//! The watchable for small values that are copied, not cloned.
use std::sync::Arc;
use std::task::{Context, Poll, Waker};

use crossbeam::atomic::AtomicCell;
use vstd::prelude::*;

use crate::cell::{CellLink, CellView};
use crate::epoch::{
    advance, count_after, new_counter, read_count, Counter, CounterLink, Gauge, Glance,
};
use crate::error::Disconnected;
use crate::lite::{epoch_has_moved, CountedStep};
use crate::sync::{is_watched, Evidence, WeakRef};
use crate::watcher::{Progress, Watcher};

verus! {

/// A memory location that is read and written atomically.
#[verifier::external_type_specification]
#[verifier::external_body]
#[verifier::reject_recursive_types(T)]
pub struct ExAtomicCell<T>(AtomicCell<T>);

/// `AtomicCell::new`: a cell that holds `value`.
#[verifier::external_body]
fn cell_new<T>(value: T) -> (cell: AtomicCell<T>) {
    AtomicCell::new(value)
}

/// `AtomicCell::load`: a copy of what the cell holds.
///
/// That is up to every thread that shares the cell, so nothing is said of the result.
#[verifier::external_body]
fn cell_load<T: Copy>(cell: &AtomicCell<T>) -> (value: T)
    opens_invariants none
{
    cell.load()
}

/// `AtomicCell::store`: the cell holds `value` from then on, until someone stores
/// another one.
#[verifier::external_body]
fn cell_store<T>(cell: &AtomicCell<T>, value: T) {
    cell.store(value)
}

/// A receipt for a value that was stored. It is used up when the change is counted.
pub struct Stored {
    number: u64,
}

impl Evidence for Stored {

}

/// `value` is what `AtomicCell::load` gives for the cell.
pub closed spec fn loads<T: Copy>(cell: AtomicCell<T>, value: T) -> bool {
    call_ensures(cell_load::<T>, (&cell,), value)
}

/// `value` is what `AtomicCell::load` gives for the cell, after what the receipt is for.
pub closed spec fn loads_after<T: Copy>(cell: AtomicCell<T>, receipt: Glance, value: T) -> bool {
    call_ensures(later_load::<T>, (&cell, receipt), value)
}

/// `AtomicCell::store` put `value` into the cell. The receipt is for that.
pub closed spec fn stores<T>(cell: AtomicCell<T>, value: T, receipt: Stored) -> bool {
    call_ensures(signed_store::<T>, (&cell, value), receipt)
}

/// Loads from the cell, after what the receipt is for.
fn later_load<T: Copy>(cell: &AtomicCell<T>, _receipt: Glance) -> (value: T)
    ensures
        loads(*cell, value),
    opens_invariants none
{
    cell_load(cell)
}

/// What the cell holds, after what the receipt is for.
pub(crate) fn late_load<T: Copy>(cell: &AtomicCell<T>, receipt: Glance) -> (value: T)
    ensures
        loads_after(*cell, receipt, value),
    opens_invariants none
{
    later_load(cell, receipt)
}

/// Stores into the cell, and gives a receipt for it.
fn signed_store<T>(cell: &AtomicCell<T>, value: T) -> (receipt: Stored)
    ensures
        call_ensures(cell_store::<T>, (cell, value), ()),
{
    cell_store(cell, value);
    Stored { number: 0 }
}

/// What loading late gives is what loading gives.
pub proof fn law_loads_after<T: Copy>(cell: AtomicCell<T>, receipt: Glance, value: T)
    requires
        loads_after(cell, receipt, value),
    ensures
        loads(cell, value),
{
}

/// To have read or written a cell is to have called it.
proof fn law_cells_are_called<T: Copy>(
    cell: AtomicCell<T>,
    value: T,
    glance: Glance,
    receipt: Stored,
)
    ensures
        loads(cell, value) ==> call_ensures(cell_load::<T>, (&cell,), value),
        loads_after(cell, glance, value) ==> call_ensures(
            later_load::<T>,
            (&cell, glance),
            value,
        ) && call_ensures(cell_load::<T>, (&cell,), value),
        stores(cell, value, receipt) ==> call_ensures(
            signed_store::<T>,
            (&cell, value),
            receipt,
        ) && call_ensures(cell_store::<T>, (&cell, value), ()),
{
}

/// A watchable begins with a cell that was made for its value.
proof fn law_handle_begins_with_its_value<T: Copy>(handle: WatchableAtomic<T>, value: T)
    requires
        handle.began_with(value),
    ensures
        call_ensures(cell_new::<T>, (value,), *handle.shared().0),
        crate::epoch::starts_counting(*handle.shared().1),
{
}

/// The largest size of a value that fits, in bytes.
pub const MAX_BYTES: usize = 8;

/// Watchable for small `Copy` types (up to 8 bytes), without a lock around the value.
///
/// Reading and writing are lock-free where a primitive atomic type has the size of `T` and no
/// greater alignment. A value of another type is guarded by a lock of `AtomicCell`. Its clones
/// are handles to one and the same value.
#[derive(Debug)]
#[verifier::reject_recursive_types(T)]
pub struct WatchableAtomic<T: Copy> {
    data: Arc<AtomicCell<T>>,
    epoch: Arc<Counter>,
}

impl<T: Copy> WatchableAtomic<T> {
    /// What the handle shares with its clones and its watchers.
    pub closed spec fn shared(self) -> (Arc<AtomicCell<T>>, Arc<Counter>) {
        (self.data, self.epoch)
    }

    /// The cell behind the handle is one that `AtomicCell::new` gives for `value`, and the
    /// epoch next to it was made as the first one.
    pub closed spec fn began_with(self, value: T) -> bool {
        &&& call_ensures(cell_new::<T>, (value,), *self.data)
        &&& crate::epoch::starts_counting(*self.epoch)
    }

    /// A thread took this step on what the handle shares. Storing gives the receipt, and counting
    /// asks for it: it comes after what the receipt is for.
    pub open spec fn takes(self, step: CountedStep<T>, receipt: Stored) -> bool {
        match step {
            CountedStep::Store(value) => stores(*self.shared().0, value, receipt),
            CountedStep::Count => crate::epoch::counts_after(*self.shared().1, receipt),
        }
    }

    /// `value` is what `AtomicCell::load` gives for the cell behind the handle.
    pub open spec fn shows(self, value: T) -> bool {
        loads(*self.shared().0, value)
    }

    /// Creates a new watchable with the given initial value.
    pub fn new(value: T) -> (handle: Self)
        requires
            vstd::layout::size_of::<T>() <= MAX_BYTES,
        ensures
            handle.began_with(value),
    {
        Self::around(value)
    }

    /// Wraps `value`, whatever its size.
    fn around(value: T) -> (handle: Self)
        ensures
            handle.began_with(value),
    {
        WatchableAtomic {
            data: Arc::new(cell_new(value)),
            epoch: Arc::new(new_counter()),
        }
    }

    /// Sets a new value.
    pub fn set(&self, value: T)
        ensures
            exists|receipt: Stored| #[trigger]
                self.takes(CountedStep::Store(value), receipt) && self.takes(
                    CountedStep::Count,
                    receipt,
                ),
    {
        let receipt = signed_store(&self.data, value);
        count_after(&self.epoch, receipt);
        assert(self.takes(CountedStep::Store(value), receipt));
    }

    /// Returns a copy of the current value.
    ///
    /// What the cell holds is up to every thread that has a handle.
    pub fn get(&self) -> (value: T)
        ensures
            self.shows(value),
        opens_invariants none
    {
        cell_load(&self.data)
    }

    /// Creates a watcher for this value. It reads the epoch first, and the value after that.
    pub fn watch(&self) -> (watcher: DirectAtomic<T>)
        ensures
            watcher.source() == self.shared(),
            exists|receipt: Glance| #[trigger]
                crate::epoch::shows_count(*self.shared().1, watcher.last_epoch(), receipt)
                    && loads_after(*self.shared().0, receipt, watcher.value()),
    {
        let (last_epoch, receipt) = read_count(&self.epoch);
        let cached = late_load(&self.data, receipt);
        let watcher = DirectAtomic {
            data: CellLink::to(&self.data),
            epoch: CounterLink::to(&self.epoch),
            last_epoch,
            cached,
        };
        assert(crate::epoch::shows_count(*self.shared().1, watcher.last_epoch(), receipt));
        watcher
    }

    /// Returns `true` if there are any active watchers.
    ///
    /// How many there are is up to every thread that has one. The answer goes by a count of
    /// them.
    pub fn has_watchers(&self) -> (watched: bool)
        ensures
            crate::sync::answers_watched(self.shared().1, watched),
        opens_invariants none
    {
        is_watched(&self.epoch)
    }
}

impl<T: Copy> Clone for WatchableAtomic<T> {
    fn clone(&self) -> (copy: Self)
        ensures
            copy.shared() == self.shared(),
    {
        WatchableAtomic { data: self.data.clone(), epoch: self.epoch.clone() }
    }
}

impl<T: Copy + Default> Default for WatchableAtomic<T> {
    /// A watchable around the default value, whatever its size. Only [`WatchableAtomic::new`]
    /// asks for a small one.
    fn default() -> (handle: Self)
        ensures
            exists|value: T| #[trigger]
                call_ensures(T::default, (), value) && handle.began_with(value),
    {
        Self::around(T::default())
    }
}

/// Direct watcher for [`WatchableAtomic`].
#[verifier::reject_recursive_types(T)]
pub struct DirectAtomic<T: Copy> {
    data: CellLink<T>,
    epoch: CounterLink,
    last_epoch: u64,
    cached: T,
}

impl<T: Copy> DirectAtomic<T> {
    /// The weak references by which the watcher looks for its source: one to the value, one to
    /// the epoch.
    pub closed spec fn links(self) -> (WeakRef<AtomicCell<T>>, WeakRef<Counter>) {
        (self.data.reference(), self.epoch.reference())
    }

    /// What the watcher looks at.
    pub open spec fn source(self) -> (Arc<AtomicCell<T>>, Arc<Counter>) {
        (self.links().0.target(), self.links().1.target())
    }

    /// `found` is what `Weak::upgrade` gives for the epoch of the source: the epoch itself,
    /// or nothing if the source is gone.
    pub open spec fn finds(self, found: Option<Arc<Counter>>) -> bool {
        self.links().1.gives(found)
    }

    /// The epoch that the watcher has caught up with.
    pub closed spec fn last_epoch(self) -> u64 {
        self.last_epoch
    }

    /// The value that the watcher saw last.
    pub closed spec fn value(self) -> T {
        self.cached
    }

    /// The watcher looks at what it found of its source, the value and the epoch, and goes from
    /// `pre` to `post`. If it was behind the epoch, it takes a copy of the value that it
    /// finds after that. It stays where it is if the source is gone.
    pub open spec fn looks(
        pre: Self,
        data: Option<Arc<AtomicCell<T>>>,
        epoch: Option<Arc<Counter>>,
        post: Self,
        changed: bool,
    ) -> bool {
        &&& post.links() == pre.links()
        &&& match (data, epoch) {
            (Some(data), Some(epoch)) => exists|current: u64, receipt: Glance|
                {
                    &&& #[trigger] crate::epoch::shows_count(*epoch, current, receipt)
                    &&& crate::epoch::looks_at_epoch(
                        pre.last_epoch(),
                        Some(current),
                        post.last_epoch(),
                        changed,
                    )
                    &&& if changed {
                        loads_after(*data, receipt, post.value())
                    } else {
                        post.value() == pre.value()
                    }
                },
            _ => {
                &&& !changed
                &&& post.last_epoch() == pre.last_epoch()
                &&& post.value() == pre.value()
            },
        }
    }

    /// Looks at what was found of the source. Returns whether there was a change.
    pub fn update_found(
        &mut self,
        data: Option<CellView<T>>,
        epoch: Option<Gauge>,
    ) -> (changed: bool)
        ensures
            Self::looks(
                *old(self),
                CellView::cell_of(data),
                Gauge::counter_of(epoch),
                *final(self),
                changed,
            ),
    {
        let ghost found = (CellView::cell_of(data), Gauge::counter_of(epoch));
        match (data, epoch) {
            (Some(data), Some(epoch)) => {
                let (current, receipt) = epoch.read();
                let changed = advance(&mut self.last_epoch, current);
                if changed {
                    self.cached = data.load_after(receipt);
                }
                assert(self.value() == self.cached);
                assert(found.1 == Some(epoch.counter()));
                assert(crate::epoch::shows_count(*found.1->0, current, receipt));
                changed
            },
            _ => false,
        }
    }
}

impl<T: Copy> Clone for DirectAtomic<T> {
    fn clone(&self) -> (copy: Self)
        ensures
            copy.links() == self.links(),
            copy.last_epoch() == self.last_epoch(),
            copy.value() == self.value(),
    {
        DirectAtomic {
            data: self.data.clone(),
            epoch: self.epoch.clone(),
            last_epoch: self.last_epoch,
            cached: self.cached,
        }
    }
}

impl<T: Copy> Watcher for DirectAtomic<T> {
    type Value = T;

    open spec fn cached(&self) -> T {
        self.value()
    }

    open spec fn updates(pre: Self, post: Self, changed: bool) -> bool {
        exists|data: Option<Arc<AtomicCell<T>>>, epoch: Option<Arc<Counter>>|
            #[trigger] pre.links().0.gives(data) && #[trigger] pre.finds(epoch) && Self::looks(
                pre,
                data,
                epoch,
                post,
                changed,
            )
    }

    open spec fn polls(pre: Self, post: Self, task: Set<Waker>, outcome: Progress) -> bool {
        exists|found: Option<Arc<Counter>>| #[trigger]
            pre.finds(found) && match found {
                Some(_) => !(outcome is Gone) && Self::updates(pre, post, outcome is Changed),
                None => outcome is Gone && post == pre,
            }
    }

    open spec fn answers_connected(&self, answer: bool) -> bool {
        exists|found: Option<Arc<Counter>>| #[trigger]
            self.finds(found) && answer == found is Some
    }

    open spec fn answers_changed(&self, answer: bool) -> bool {
        crate::lite::answers_moved(self.links().1, self.last_epoch(), answer)
    }

    open spec fn changes_left(&self) -> nat {
        (u64::MAX - self.last_epoch()) as nat
    }

    open spec fn has_unreported(&self) -> bool {
        false
    }

    proof fn law_update(pre: Self, post: Self, changed: bool) {
    }

    proof fn law_poll(pre: Self, post: Self, task: Set<Waker>, outcome: Progress) {
    }

    fn update(&mut self) -> (changed: bool) {
        let data = self.data.find();
        let epoch = self.epoch.find();
        let ghost (found_data, found_epoch) = (CellView::cell_of(data), Gauge::counter_of(epoch));
        assert(old(self).links().0.gives(found_data) && old(self).finds(found_epoch));
        self.update_found(data, epoch)
    }

    fn peek(&self) -> (value: &T) {
        &self.cached
    }

    fn is_connected(&self) -> (connected: bool) {
        let found = self.epoch.find();
        assert(self.finds(Gauge::counter_of(found)));
        found.is_some()
    }

    fn has_changed(&self) -> (changed: bool) {
        assert(self.last_epoch() == self.last_epoch);
        epoch_has_moved(&self.epoch, self.last_epoch)
    }

    /// This variant doesn't support async waiting: nobody wakes a task that polls it.
    fn poll_updated(&mut self, _cx: &mut Context<'_>) -> (outcome: Poll<Result<(), Disconnected>>) {
        if !self.is_connected() {
            return Poll::Ready(Err(Disconnected));
        }
        if self.update() {
            Poll::Ready(Ok(()))
        } else {
            Poll::Pending
        }
    }
}

} // verus!
