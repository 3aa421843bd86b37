//! The watcher trait, and the futures and streams that wait on a watcher.
use std::future::Future;
use std::pin::Pin;
use std::task::{Context, Poll, Waker};

use futures_lite::Stream;
use vstd::prelude::*;

use crate::combine::{Mapped, TotalFn};
use crate::error::Disconnected;
use crate::sync::get_behind;

verus! {

/// What polling comes to, apart from what it hands out.
pub enum Progress {
    /// There was a change.
    Changed,
    /// The watchable is gone.
    Gone,
    /// There is nothing new yet.
    Waiting,
}

/// What the outcome of polling tells of the watcher's progress.
pub open spec fn progress<T>(outcome: Poll<Result<T, Disconnected>>) -> Progress {
    match outcome {
        Poll::Ready(Ok(_)) => Progress::Changed,
        Poll::Ready(Err(_)) => Progress::Gone,
        Poll::Pending => Progress::Waiting,
    }
}

/// A handle to observe a value that may change over time.
///
/// Watchers track the "latest known" value and can detect when updates occur.
/// Only the most recent value is accessible - intermediate values may be skipped
/// if the producer updates faster than the consumer polls.
///
/// What a watcher finds when it looks at its source is up to every thread that
/// shares the source. So a watcher says by relations which steps it may take:
/// whatever it finds, an operation takes one of those.
pub trait Watcher: Clone {
    /// The type of value being watched.
    type Value;

    /// The value that was seen last.
    spec fn cached(&self) -> Self::Value;

    /// An update may take the watcher from `pre` to `post` and report `changed`.
    spec fn updates(pre: Self, post: Self, changed: bool) -> bool;

    /// Polling on behalf of a task may take the watcher from `pre` to `post` and come to
    /// `outcome`. The task is given by its wakers.
    spec fn polls(pre: Self, post: Self, task: Set<Waker>, outcome: Progress) -> bool;

    /// The watcher may answer `answer` when asked whether it is connected.
    spec fn answers_connected(&self, answer: bool) -> bool;

    /// The watcher may answer `answer` when asked whether a change is pending.
    spec fn answers_changed(&self, answer: bool) -> bool;

    /// How many changes the watcher can still report, at most.
    spec fn changes_left(&self) -> nat;

    /// The watcher has taken in a change while it was polled, and could not report it: what it
    /// is made of was gone in part.
    spec fn has_unreported(&self) -> bool;

    /// An update that reports no change leaves the value as it was, and each change
    /// that is reported uses up one of those that are left. A change that was not reported yet
    /// is reported now.
    proof fn law_update(pre: Self, post: Self, changed: bool)
        requires
            Self::updates(pre, post, changed),
        ensures
            !changed ==> post.cached() == pre.cached(),
            post.changes_left() + (if changed { 1nat } else { 0nat }) <= pre.changes_left(),
            pre.has_unreported() ==> changed,
            !post.has_unreported(),
    ;

    /// Polling that has to wait leaves the value as it was, and each change that is
    /// reported uses up one of those that are left. Where the watchable is gone, a change that was
    /// taken in all the same is kept to be reported, and stays so until it is.
    proof fn law_poll(pre: Self, post: Self, task: Set<Waker>, outcome: Progress)
        requires
            Self::polls(pre, post, task, outcome),
        ensures
            outcome is Waiting ==> post.cached() == pre.cached(),
            post.changes_left() + (if outcome is Changed { 1nat } else { 0nat })
                <= pre.changes_left(),
            outcome is Gone && !post.has_unreported() ==> post.cached() == pre.cached(),
            pre.has_unreported() && !(outcome is Changed) ==> post.has_unreported(),
    ;

    /// Updates internal state, returns `true` if the value changed.
    fn update(&mut self) -> (changed: bool)
        ensures
            Self::updates(*old(self), *final(self), changed),
    ;

    /// Returns a reference to the cached value without updating.
    fn peek(&self) -> (value: &Self::Value)
        ensures
            *value == self.cached(),
        opens_invariants none
    ;

    /// Returns `true` if connected to the underlying watchable.
    fn is_connected(&self) -> (connected: bool)
        ensures
            self.answers_connected(connected),
    ;

    /// Returns `true` if there's a pending change since last `update()` or `get()`.
    fn has_changed(&self) -> (changed: bool)
        ensures
            self.answers_changed(changed),
    ;

    /// Polls for the next update. The task that is being polled stays the same.
    fn poll_updated(&mut self, cx: &mut Context<'_>) -> (outcome: Poll<Result<(), Disconnected>>)
        ensures
            Self::polls(
                *old(self),
                *final(self),
                crate::sync::task_of(*old(cx)),
                progress(outcome),
            ),
            crate::sync::task_of(*final(cx)) == crate::sync::task_of(*old(cx)),
    ;

    /// Updates internal state and returns the latest value.
    fn get(&mut self) -> (value: Self::Value) where Self::Value: Clone
        ensures
            exists|changed: bool| Self::updates(*old(self), *final(self), changed),
            cloned(final(self).cached(), value),
    {
        self.update();
        self.peek().clone()
    }

    /// Returns a future that completes when the value changes.
    fn updated(&mut self) -> (future: UpdatedFut<'_, Self>)
        ensures
            *future.watcher == *old(self),
            *final(future.watcher) == *final(self),
        opens_invariants none
    {
        UpdatedFut { watcher: self }
    }

    /// Converts this watcher into a stream yielding values on change.
    /// The first item is the current value.
    fn stream(self) -> (stream: WatchStream<Self>) where Self::Value: Clone
        ensures
            exists|changed: bool| Self::updates(self, stream.watcher, changed),
            stream.initial matches Some(value) && cloned(stream.watcher.cached(), value),
    {
        let mut watcher = self;
        let initial = watcher.get();
        WatchStream { initial: Some(initial), watcher }
    }

    /// Converts this watcher into a stream yielding only future updates.
    fn stream_updates_only(self) -> (stream: WatchStream<Self>)
        ensures
            stream.watcher == self,
            stream.initial is None,
        opens_invariants none
    {
        WatchStream { initial: None, watcher: self }
    }

    /// Maps this watcher's values through a function.
    fn map<U, F>(self, f: F) -> (mapped: Mapped<Self, U, F>) where
        U: Clone + PartialEq,
        F: Fn(&Self::Value) -> U,

        requires
            forall|value: &Self::Value| call_requires(f, (value,)),
        ensures
            mapped.watcher == self,
            mapped.map_fn.f() == f,
            call_ensures(f, (&self.cached(),), mapped.current),
    {
        let map_fn = TotalFn::new(f);
        let current = map_fn.call(self.peek());
        Mapped { watcher: self, map_fn, current }
    }
}

/// A watcher of a value that may still be missing.
pub trait OptionWatcher<T: Clone>: Watcher<Value = Option<T>> {
    /// Returns a future that completes when the value becomes `Some`.
    fn initialized(&mut self) -> (future: InitializedFut<'_, T, Self>)
        ensures
            exists|changed: bool| Self::updates(*old(self), *future.watcher, changed),
            cloned(future.watcher.cached(), future.initial),
            *final(future.watcher) == *final(self),
    ;
}

impl<T: Clone, W: Watcher<Value = Option<T>>> OptionWatcher<T> for W {
    fn initialized(&mut self) -> (future: InitializedFut<'_, T, Self>) {
        let initial = self.get();
        let ghost changed = choose|changed: bool| Self::updates(*old(self), *self, changed);
        let future = InitializedFut { initial, watcher: self };
        assert(Self::updates(*old(self), *future.watcher, changed));
        future
    }
}

/// Polling a watcher from `pre` to `post` comes to `outcome`, with a clone of the
/// new value where there is one.
pub open spec fn polls_value<W: Watcher>(
    pre: W,
    post: W,
    task: Set<Waker>,
    outcome: Poll<Result<W::Value, Disconnected>>,
) -> bool where W::Value: Clone {
    &&& W::polls(pre, post, task, progress(outcome))
    &&& outcome matches Poll::Ready(Ok(value)) ==> cloned(post.cached(), value)
}

/// Polls `watcher`, and clones the new value where there is one.
fn poll_value<W: Watcher>(watcher: &mut W, cx: &mut Context<'_>) -> (outcome: Poll<
    Result<W::Value, Disconnected>,
>) where W::Value: Clone
    ensures
        polls_value(*old(watcher), *final(watcher), crate::sync::task_of(*old(cx)), outcome),
        crate::sync::task_of(*final(cx)) == crate::sync::task_of(*old(cx)),
{
    match watcher.poll_updated(cx) {
        Poll::Ready(Ok(())) => Poll::Ready(Ok(watcher.peek().clone())),
        Poll::Ready(Err(error)) => Poll::Ready(Err(error)),
        Poll::Pending => Poll::Pending,
    }
}

/// Future returned by [`Watcher::updated`].
pub struct UpdatedFut<'a, W: Watcher> {
    pub watcher: &'a mut W,
}

impl<'a, W: Watcher> UpdatedFut<'a, W> where W::Value: Clone {
    /// Polls the watcher for its next value.
    pub fn poll_next(&mut self, cx: &mut Context<'_>) -> (outcome: Poll<
        Result<W::Value, Disconnected>,
    >)
        ensures
            polls_value(
                *old(self).watcher,
                *final(self).watcher,
                crate::sync::task_of(*old(cx)),
                outcome,
            ),
            *final(final(self).watcher) == *final(old(self).watcher),
    {
        poll_value(self.watcher, cx)
    }
}

impl<'a, W: Watcher> Unpin for UpdatedFut<'a, W> {

}

impl<'a, W: Watcher> Future for UpdatedFut<'a, W> where W::Value: Clone {
    type Output = Result<W::Value, Disconnected>;

    /// Polls the watcher of the future that is behind the pinned reference for its next value.
    fn poll(self: Pin<&mut Self>, cx: &mut Context<'_>) -> (outcome: Poll<Self::Output>)
        ensures
            exists|this: &mut Self| #[trigger]
                crate::sync::points_at(self, this) && polls_value(
                    *this.watcher,
                    *final(this).watcher,
                    crate::sync::task_of(*old(cx)),
                    outcome,
                ),
    {
        let this = get_behind(self);
        let ghost behind = this;
        let outcome = this.poll_next(cx);
        assert(crate::sync::points_at(self, behind));
        outcome
    }
}

/// Future returned by [`OptionWatcher::initialized`].
#[verifier::reject_recursive_types(T)]
pub struct InitializedFut<'a, T, W: Watcher<Value = Option<T>>> {
    pub initial: Option<T>,
    pub watcher: &'a mut W,
}

/// Polling a watcher takes it from `pre` to `post` by `steps` changes that all leave
/// the value missing.
pub open spec fn stays_missing<T: Clone, W: Watcher<Value = Option<T>>>(
    pre: W,
    post: W,
    task: Set<Waker>,
    steps: nat,
) -> bool
    decreases steps,
{
    if steps == 0 {
        pre == post
    } else {
        exists|before: W|
            {
                &&& stays_missing::<T, W>(pre, before, task, (steps - 1) as nat)
                &&& #[trigger] W::polls(before, post, task, Progress::Changed)
                &&& post.cached() is None
            }
    }
}

/// Waiting for a value takes a watcher from `pre` to `post` and comes to `outcome`:
/// it polls past every change that leaves the value missing.
pub open spec fn polls_initialized<T: Clone, W: Watcher<Value = Option<T>>>(
    pre: W,
    post: W,
    task: Set<Waker>,
    outcome: Poll<Result<T, Disconnected>>,
) -> bool {
    exists|steps: nat, before: W|
        {
            &&& #[trigger] stays_missing::<T, W>(pre, before, task, steps)
            &&& W::polls(before, post, task, progress(outcome))
            &&& outcome matches Poll::Ready(Ok(value)) ==> post.cached() matches Some(latest)
                && cloned(latest, value)
        }
}

impl<'a, T: Clone, W: Watcher<Value = Option<T>>> InitializedFut<'a, T, W> {
    /// Polls the watcher until it has a value.
    pub fn poll_next(&mut self, cx: &mut Context<'_>) -> (outcome: Poll<Result<T, Disconnected>>)
        ensures
            final(self).initial is None,
            match old(self).initial {
                Some(value) => outcome == Poll::<Result<T, Disconnected>>::Ready(Ok(value))
                    && *final(self).watcher == *old(self).watcher,
                None => polls_initialized::<T, W>(
                    *old(self).watcher,
                    *final(self).watcher,
                    crate::sync::task_of(*old(cx)),
                    outcome,
                ),
            },
            *final(final(self).watcher) == *final(old(self).watcher),
    {
        if let Some(value) = self.initial.take() {
            return Poll::Ready(Ok(value));
        }
        let ghost pre = *self.watcher;
        let ghost task = crate::sync::task_of(*cx);
        let ghost mut steps: nat = 0;
        loop
            invariant
                self.initial is None,
                old(self).initial is None,
                pre == *old(self).watcher,
                task == crate::sync::task_of(*old(cx)),
                task == crate::sync::task_of(*cx),
                stays_missing::<T, W>(pre, *self.watcher, task, steps),
                *final(self.watcher) == *final(old(self).watcher),
            decreases self.watcher.changes_left(),
        {
            let ghost before = *self.watcher;
            let outcome = self.watcher.poll_updated(cx);
            proof {
                W::law_poll(before, *self.watcher, task, progress(outcome));
            }
            match outcome {
                Poll::Ready(Ok(())) => {
                    if let Some(value) = self.watcher.peek().clone() {
                        return Poll::Ready(Ok(value));
                    }
                    proof {
                        steps = steps + 1;
                    }
                },
                Poll::Ready(Err(error)) => {
                    return Poll::Ready(Err(error));
                },
                Poll::Pending => {
                    return Poll::Pending;
                },
            }
        }
    }
}

impl<'a, T, W: Watcher<Value = Option<T>>> Unpin for InitializedFut<'a, T, W> {

}

impl<'a, T: Clone, W: Watcher<Value = Option<T>>> Future for InitializedFut<'a, T, W> {
    type Output = Result<T, Disconnected>;

    /// Hands out the value that was there from the start, or polls the watcher of the future
    /// that is behind the pinned reference until it has one.
    fn poll(self: Pin<&mut Self>, cx: &mut Context<'_>) -> (outcome: Poll<Self::Output>)
        ensures
            exists|this: &mut Self| #[trigger]
                crate::sync::points_at(self, this) && final(this).initial is None
                    && match this.initial {
                    Some(value) => outcome == Poll::<Result<T, Disconnected>>::Ready(Ok(value))
                        && *final(this).watcher == *this.watcher,
                    None => polls_initialized::<T, W>(
                        *this.watcher,
                        *final(this).watcher,
                        crate::sync::task_of(*old(cx)),
                        outcome,
                    ),
                },
    {
        let this = get_behind(self);
        let ghost behind = this;
        let outcome = this.poll_next(cx);
        assert(crate::sync::points_at(self, behind));
        outcome
    }
}

/// Stream returned by [`Watcher::stream`] and [`Watcher::stream_updates_only`].
pub struct WatchStream<W: Watcher> {
    pub initial: Option<W::Value>,
    pub watcher: W,
}

impl<W: Watcher> WatchStream<W> where W::Value: Clone {
    /// Polls for the next item. The stream ends when the watchable is gone.
    pub fn poll_item(&mut self, cx: &mut Context<'_>) -> (outcome: Poll<Option<W::Value>>)
        ensures
            final(self).initial is None,
            match old(self).initial {
                Some(value) => outcome == Poll::Ready(Some(value)) && final(self).watcher == old(
                    self,
                ).watcher,
                None => polls_value(
                    old(self).watcher,
                    final(self).watcher,
                    crate::sync::task_of(*old(cx)),
                    ends_when_gone(outcome),
                ),
            },
    {
        if let Some(value) = self.initial.take() {
            return Poll::Ready(Some(value));
        }
        match poll_value(&mut self.watcher, cx) {
            Poll::Ready(Ok(value)) => Poll::Ready(Some(value)),
            Poll::Ready(Err(Disconnected)) => Poll::Ready(None),
            Poll::Pending => Poll::Pending,
        }
    }
}

/// A poll of a stream, told as a poll for a value: the end of the stream stands for a
/// watchable that is gone.
pub open spec fn ends_when_gone<T>(outcome: Poll<Option<T>>) -> Poll<Result<T, Disconnected>> {
    match outcome {
        Poll::Ready(Some(value)) => Poll::Ready(Ok(value)),
        Poll::Ready(None) => Poll::Ready(Err(Disconnected)),
        Poll::Pending => Poll::Pending,
    }
}

impl<W: Watcher> Unpin for WatchStream<W> {

}

impl<W: Watcher> Stream for WatchStream<W> where W::Value: Clone {
    type Item = W::Value;

    /// Hands out the value that was there from the start, or polls the watcher of the stream
    /// that is behind the pinned reference.
    fn poll_next(self: Pin<&mut Self>, cx: &mut Context<'_>) -> (outcome: Poll<Option<W::Value>>)
        ensures
            exists|this: &mut Self| #[trigger]
                crate::sync::points_at(self, this) && final(this).initial is None
                    && match this.initial {
                    Some(value) => outcome == Poll::Ready(Some(value)) && final(this).watcher
                        == this.watcher,
                    None => polls_value(
                        this.watcher,
                        final(this).watcher,
                        crate::sync::task_of(*old(cx)),
                        ends_when_gone(outcome),
                    ),
                },
    {
        let this = get_behind(self);
        let ghost behind = this;
        let outcome = this.poll_item(cx);
        assert(crate::sync::points_at(self, behind));
        outcome
    }
}

} // verus!
