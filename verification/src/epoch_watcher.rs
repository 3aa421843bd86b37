//! Data that only tells that it changed, and the watcher of such data.
use std::future::Future;
use std::pin::Pin;
use std::sync::Arc;
use std::task::{Context, Poll, Waker};

use parking_lot::RwLock;
use vstd::pervasive::strictly_cloned;
use vstd::prelude::*;

use crate::epoch::advance;
use crate::error::Disconnected;
use crate::notifier::{lent_epoch, note_change, Notifier, NotifierStep, NotifierView};
use crate::sync::{
    clone_of, downgrade, get_behind, new_lock, read_with, wake_each, waker_of, write_with, Guarded,
    Receipt, WeakRef,
};
use crate::watcher::Progress;

verus! {

/// A handle to data of type `D` and the notifier of its changes. Its clones are handles
/// to the same data and the same notifier.
#[derive(Debug)]
#[verifier::reject_recursive_types(D)]
pub struct LiteShared<D> {
    data: Arc<RwLock<D>>,
    notifier: Arc<Guarded<Notifier>>,
}

impl<D> LiteShared<D> {
    /// The lock around the data that the handle shares with its clones.
    pub closed spec fn data(self) -> RwLock<D> {
        *self.data
    }

    /// The notifier that the handle shares with its clones and its watchers.
    pub closed spec fn notifier(self) -> Arc<Guarded<Notifier>> {
        self.notifier
    }

    /// The lock behind the handle is one that `RwLock::new` gives for `data`.
    pub open spec fn began_with(self, data: D) -> bool {
        crate::sync::made_with(self.data(), data)
    }

    /// Shares `data`, unchanged so far.
    pub fn new(data: D) -> (shared: Self)
        ensures
            shared.began_with(data),
            exists|notifier: Notifier| #[trigger]
                shared.notifier().made_around(notifier) && notifier@ == NotifierView::quiet(),
    {
        let notifier = Notifier::new();
        let ghost quiet = notifier;
        let shared = LiteShared {
            data: Arc::new(new_lock(data)),
            notifier: Arc::new(Guarded::new(notifier, 0)),
        };
        assert(shared.notifier().made_around(quiet));
        shared
    }

    /// Runs `f` with `arg` on the data.
    pub fn read<A, R, F: FnOnce(&D, A) -> R>(&self, arg: A, f: F) -> (result: R)
        requires
            forall|data: &D| call_requires(f, (data, arg)),
        ensures
            crate::sync::reads(self.data(), arg, f, result),
            exists|data: &D| call_ensures(f, (data, arg), result),
        opens_invariants none
    {
        read_with(&self.data, arg, f)
    }

    /// Changes the data in place with `f` and `arg`. It is up to the caller to notify, with the
    /// receipt for the change.
    pub fn write<A, R, F: FnOnce(&mut D, A) -> R>(&self, arg: A, f: F) -> (signed: (R, Receipt))
        requires
            forall|data: &mut D| call_requires(f, (data, arg)),
        ensures
            crate::sync::writes(self.data(), arg, f, signed.0, signed.1),
            exists|data: &mut D| call_ensures(f, (data, arg), signed.0),
        opens_invariants [crate::sync::write_step(self.data(), arg, f)]
    {
        write_with(&self.data, arg, f)
    }

    /// Returns a clone of the data.
    pub fn snapshot(&self) -> (data: D) where D: Clone
        ensures
            crate::sync::reads(self.data(), (), clone_of::<D>, data),
            exists|current: D| strictly_cloned(current, data),
        opens_invariants none
    {
        read_with(&self.data, (), clone_of::<D>)
    }

    /// Takes note of a change, which the receipt is for, and wakes the tasks that wait for one.
    pub fn notify(&self, receipt: Receipt)
        ensures
            crate::notifier::takes_step(*self.notifier(), NotifierStep::Notify, receipt),
        opens_invariants [self.notifier().step(note_change)]
    {
        let woken = self.notifier.with_after((), note_change, receipt);
        let ghost given_out = woken;
        wake_each(woken);
        assert(self.notifier().locks_after((), note_change, receipt, given_out));
    }

    /// Creates a watcher that is told that something changed.
    pub fn watch(&self) -> (watcher: EpochWatcher)
        ensures
            watcher.source() == self.notifier(),
            crate::notifier::shows_epoch(*self.notifier(), watcher.last_epoch()),
        opens_invariants [self.notifier().step(lent_epoch)]
    {
        EpochWatcher {
            notifier: downgrade(&self.notifier),
            last_epoch: current_epoch(&self.notifier),
        }
    }
}

impl<D> Clone for LiteShared<D> {
    fn clone(&self) -> (copy: Self)
        ensures
            copy == *self,
    {
        LiteShared { data: self.data.clone(), notifier: self.notifier.clone() }
    }
}

/// The epoch of the notifier.
fn current_epoch(notifier: &Guarded<Notifier>) -> (epoch: u64)
    ensures
        crate::notifier::shows_epoch(*notifier, epoch),
    opens_invariants [notifier.step(lent_epoch)]
{
    notifier.with((), lent_epoch)
}

/// Watcher that only tracks *that* something changed, not *what*.
pub struct EpochWatcher {
    notifier: WeakRef<Guarded<Notifier>>,
    last_epoch: u64,
}

impl EpochWatcher {
    /// The weak reference by which the watcher looks for its source.
    pub closed spec fn link(self) -> WeakRef<Guarded<Notifier>> {
        self.notifier
    }

    /// What the watcher looks at.
    pub open spec fn source(self) -> Arc<Guarded<Notifier>> {
        self.link().target()
    }

    /// The epoch that the watcher has caught up with.
    pub closed spec fn last_epoch(self) -> u64 {
        self.last_epoch
    }

    /// `found` is what `Weak::upgrade` gives for the source: the source itself, or nothing if
    /// it is gone.
    pub open spec fn finds(self, found: Option<Arc<Guarded<Notifier>>>) -> bool {
        self.link().gives(found)
    }

    /// The watcher looks at the epoch that the notifier shows, and goes from `pre` to `post` by
    /// it: to that epoch if it was behind, and nowhere if not.
    pub open spec fn looks_at(
        pre: Self,
        notifier: Guarded<Notifier>,
        post: Self,
        changed: bool,
    ) -> bool {
        &&& post.link() == pre.link()
        &&& exists|current: u64| #[trigger]
            crate::notifier::shows_epoch(notifier, current) && crate::epoch::looks_at_epoch(
                pre.last_epoch(),
                Some(current),
                post.last_epoch(),
                changed,
            )
    }

    /// The watcher looks at the epoch that the notifier shows, after what the receipt is for, and
    /// goes from `pre` to `post` by it.
    pub open spec fn looks_at_after(
        pre: Self,
        notifier: Guarded<Notifier>,
        receipt: Receipt,
        post: Self,
        changed: bool,
    ) -> bool {
        &&& post.link() == pre.link()
        &&& exists|current: u64| #[trigger]
            crate::notifier::shows_epoch_after(notifier, receipt, current)
                && crate::epoch::looks_at_epoch(
                pre.last_epoch(),
                Some(current),
                post.last_epoch(),
                changed,
            )
    }

    /// The watcher goes from `pre` to `post` by what it found of its source: it looks at it, and
    /// has nothing to tell if the source is gone.
    pub open spec fn looks_found(
        pre: Self,
        found: Option<Arc<Guarded<Notifier>>>,
        post: Self,
        outcome: Option<bool>,
    ) -> bool {
        match found {
            Some(notifier) => outcome matches Some(changed) && Self::looks_at(
                pre,
                *notifier,
                post,
                changed,
            ),
            None => outcome is None && post == pre,
        }
    }

    /// The watcher goes from `pre` to `post` by what it found of its source: it takes over the
    /// epoch that it shows, and stays where it is if the source is gone.
    pub open spec fn resets_to(
        pre: Self,
        found: Option<Arc<Guarded<Notifier>>>,
        post: Self,
    ) -> bool {
        &&& post.link() == pre.link()
        &&& match found {
            Some(notifier) => crate::notifier::shows_epoch(*notifier, post.last_epoch()),
            None => post.last_epoch() == pre.last_epoch(),
        }
    }

    /// The watcher answers by what it found of its source whether a change is pending: whether
    /// the epoch that the source shows is greater.
    pub open spec fn answers_found(
        self,
        found: Option<Arc<Guarded<Notifier>>>,
        answer: bool,
    ) -> bool {
        match found {
            Some(notifier) => exists|current: u64| #[trigger]
                crate::notifier::shows_epoch(*notifier, current) && answer == (current
                    > self.last_epoch()),
            None => !answer,
        }
    }

    /// Polling takes the watcher from `pre` to `post` by what it found of its source. It fails
    /// exactly if that is gone. Otherwise it looks at the source, and if there is nothing new, it
    /// leaves a waker of the task there, and after that looks once more.
    pub open spec fn polls_found(
        pre: Self,
        found: Option<Arc<Guarded<Notifier>>>,
        post: Self,
        task: Set<Waker>,
        outcome: Progress,
    ) -> bool {
        match found {
            Some(notifier) => {
                ||| outcome is Changed && Self::looks_at(pre, *notifier, post, true)
                ||| {
                    &&& !(outcome is Gone)
                    &&& Self::looks_at(pre, *notifier, pre, false)
                    &&& exists|waker: Waker, receipt: Receipt| #[trigger]
                        crate::notifier::takes_step(*notifier, NotifierStep::Join(waker), receipt)
                            && task.contains(waker) && Self::looks_at_after(
                            pre,
                            *notifier,
                            receipt,
                            post,
                            outcome is Changed,
                        )
                }
            },
            None => outcome is Gone && post == pre,
        }
    }

    /// A look at its source takes the watcher from `pre` to `post`: to a greater epoch if
    /// there was a change, and nowhere if not.
    pub open spec fn looks(pre: Self, post: Self, changed: bool) -> bool {
        &&& post.source() == pre.source()
        &&& if changed {
            post.last_epoch() > pre.last_epoch()
        } else {
            post.last_epoch() == pre.last_epoch()
        }
    }

    /// Polling on behalf of a task takes the watcher from `pre` to `post` and comes to `outcome`.
    pub open spec fn polls(pre: Self, post: Self, task: Set<Waker>, outcome: Progress) -> bool {
        exists|found: Option<Arc<Guarded<Notifier>>>| #[trigger]
            pre.finds(found) && Self::polls_found(pre, found, post, task, outcome)
    }

    /// Returns `true` if connected to the source.
    ///
    /// Whether the source is still there is up to every thread that has a handle. The answer
    /// goes by what was found.
    pub fn is_connected(&self) -> (connected: bool)
        ensures
            exists|found: Option<Arc<Guarded<Notifier>>>| #[trigger]
                self.finds(found) && connected == found is Some,
        opens_invariants none
    {
        let found = self.notifier.find();
        assert(self.finds(found));
        match found {
            Some(_) => true,
            None => false,
        }
    }

    /// Returns `true` if the source has changed since the watcher last looked.
    pub fn has_changed(&self) -> (changed: bool)
        ensures
            exists|found: Option<Arc<Guarded<Notifier>>>| #[trigger]
                self.finds(found) && self.answers_found(found, changed),
        opens_invariants [self.source().step(lent_epoch)]
    {
        let found = self.notifier.find();
        let ghost source = found;
        assert(self.finds(source));
        match found {
            Some(notifier) => {
                let current = current_epoch(&notifier);
                assert(crate::notifier::shows_epoch(*notifier, current));
                current > self.last_epoch
            },
            None => false,
        }
    }

    /// Returns `Some(true)` if changed, `Some(false)` if not, `None` if disconnected.
    pub fn poll_changed(&mut self) -> (outcome: Option<bool>)
        ensures
            Self::looks(*old(self), *final(self), outcome == Some(true)),
            exists|found: Option<Arc<Guarded<Notifier>>>| #[trigger]
                old(self).finds(found) && Self::looks_found(
                    *old(self),
                    found,
                    *final(self),
                    outcome,
                ),
        opens_invariants [old(self).source().step(lent_epoch)]
    {
        let found = self.notifier.find();
        let ghost source = found;
        assert(old(self).finds(source));
        match found {
            Some(notifier) => Some(self.look(&notifier)),
            None => None,
        }
    }

    /// Looks at the source.
    fn look(&mut self, notifier: &Guarded<Notifier>) -> (changed: bool)
        ensures
            Self::looks(*old(self), *final(self), changed),
            !changed ==> *final(self) == *old(self),
            Self::looks_at(*old(self), *notifier, *final(self), changed),
        opens_invariants [notifier.step(lent_epoch)]
    {
        let current = current_epoch(notifier);
        assert(crate::notifier::shows_epoch(*notifier, current));
        advance(&mut self.last_epoch, current)
    }

    /// Looks at the source once more, after what the receipt is for.
    fn look_again(&mut self, notifier: &Guarded<Notifier>, receipt: Receipt) -> (changed: bool)
        ensures
            Self::looks(*old(self), *final(self), changed),
            Self::looks_at_after(*old(self), *notifier, receipt, *final(self), changed),
        opens_invariants [notifier.step(lent_epoch)]
    {
        let current: u64 = notifier.with_after((), lent_epoch, receipt);
        assert(crate::notifier::shows_epoch_after(*notifier, receipt, current));
        advance(&mut self.last_epoch, current)
    }

    /// Looks at what was found of the source, and if nothing has changed, leaves the task's waker
    /// there and looks once more, so that no change in between goes unnoticed. Fails exactly if
    /// nothing was found.
    pub fn poll_found(
        &mut self,
        found: Option<Arc<Guarded<Notifier>>>,
        cx: &mut Context<'_>,
    ) -> (outcome: Poll<Result<(), Disconnected>>)
        ensures
            Self::looks(
                *old(self),
                *final(self),
                crate::watcher::progress(outcome) is Changed,
            ),
            found is None <==> outcome == Poll::<Result<(), Disconnected>>::Ready(
                Err(Disconnected),
            ),
            Self::polls_found(
                *old(self),
                found,
                *final(self),
                crate::sync::task_of(*old(cx)),
                crate::watcher::progress(outcome),
            ),
        opens_invariants [found->0.step(lent_epoch), found->0.step(Notifier::register)]
    {
        match found {
            Some(notifier) => {
                if self.look(&notifier) {
                    return Poll::Ready(Ok(()));
                }
                let waker = waker_of(cx);
                let ghost joining = waker;
                let receipt = register(&notifier, waker);
                assert(crate::notifier::takes_step(
                    *notifier,
                    NotifierStep::Join(joining),
                    receipt,
                ));
                if self.look_again(&notifier, receipt) {
                    Poll::Ready(Ok(()))
                } else {
                    Poll::Pending
                }
            },
            None => Poll::Ready(Err(Disconnected)),
        }
    }

    /// Polls the source for a change, and leaves the task's waker there if there is none.
    pub fn poll_or_wait(&mut self, cx: &mut Context<'_>) -> (outcome: Poll<
        Result<(), Disconnected>,
    >)
        ensures
            Self::looks(
                *old(self),
                *final(self),
                crate::watcher::progress(outcome) is Changed,
            ),
            Self::polls(
                *old(self),
                *final(self),
                crate::sync::task_of(*old(cx)),
                crate::watcher::progress(outcome),
            ),
        opens_invariants [
            old(self).source().step(lent_epoch),
            old(self).source().step(Notifier::register),
        ]
    {
        let found = self.notifier.find();
        let ghost source = found;
        assert(old(self).finds(source));
        match found {
            Some(notifier) => self.poll_found(Some(notifier), cx),
            None => Poll::Ready(Err(Disconnected)),
        }
    }

    /// Async wait for next change.
    pub fn changed(&mut self) -> (future: EpochChangedFut<'_>)
        ensures
            *future.watcher == *old(self),
            *final(future.watcher) == *final(self),
        opens_invariants none
    {
        EpochChangedFut { watcher: self }
    }

    /// Resets the watcher to the current epoch.
    ///
    /// Which epoch that is is up to every thread that has a handle. A watcher whose source is
    /// gone stays where it is.
    pub fn reset(&mut self)
        ensures
            exists|found: Option<Arc<Guarded<Notifier>>>| #[trigger]
                old(self).finds(found) && Self::resets_to(*old(self), found, *final(self)),
        opens_invariants [old(self).source().step(lent_epoch)]
    {
        let found = self.notifier.find();
        let ghost source = found;
        assert(old(self).finds(source));
        if let Some(notifier) = found {
            self.last_epoch = current_epoch(&notifier);
        }
    }
}

/// Adds a task to be woken at the next change. Gives a receipt for it.
fn register(notifier: &Guarded<Notifier>, waker: Waker) -> (receipt: Receipt)
    ensures
        crate::notifier::takes_step(*notifier, NotifierStep::Join(waker), receipt),
    opens_invariants [notifier.step(Notifier::register)]
{
    let (_, receipt) = notifier.with_first(waker, Notifier::register);
    receipt
}

impl Clone for EpochWatcher {
    fn clone(&self) -> (copy: Self)
        ensures
            copy == *self,
    {
        EpochWatcher { notifier: self.notifier.clone(), last_epoch: self.last_epoch }
    }
}

/// Future for [`EpochWatcher::changed`].
pub struct EpochChangedFut<'a> {
    pub watcher: &'a mut EpochWatcher,
}

impl<'a> EpochChangedFut<'a> {
    /// Polls the watcher for the next change.
    pub fn poll_next(&mut self, cx: &mut Context<'_>) -> (outcome: Poll<Result<(), Disconnected>>)
        ensures
            EpochWatcher::polls(
                *old(self).watcher,
                *final(self).watcher,
                crate::sync::task_of(*old(cx)),
                crate::watcher::progress(outcome),
            ),
            *final(final(self).watcher) == *final(old(self).watcher),
        opens_invariants [
            old(self).watcher.source().step(lent_epoch),
            old(self).watcher.source().step(Notifier::register),
        ]
    {
        self.watcher.poll_or_wait(cx)
    }
}

impl<'a> Unpin for EpochChangedFut<'a> {

}

impl<'a> Future for EpochChangedFut<'a> {
    type Output = Result<(), Disconnected>;

    /// Polls the watcher of the future that is behind the pinned reference for the next change.
    fn poll(self: Pin<&mut Self>, cx: &mut Context<'_>) -> (outcome: Poll<Self::Output>)
        ensures
            exists|this: &mut Self| #[trigger]
                crate::sync::points_at(self, this) && EpochWatcher::polls(
                    *this.watcher,
                    *final(this).watcher,
                    crate::sync::task_of(*old(cx)),
                    crate::watcher::progress(outcome),
                ),
    {
        let this = get_behind(self);
        let ghost behind = this;
        let outcome = this.poll_next(cx);
        assert(crate::sync::points_at(self, behind));
        outcome
    }
}

} // verus!
