//! What the handles of one watchable share, and how a watcher looks at it.
use std::collections::VecDeque;
use std::sync::Arc;
use std::task::{Context, Poll, Waker};

use parking_lot::RwLock;
use vstd::pervasive::strictly_cloned;
use vstd::prelude::*;

use crate::error::Disconnected;
use crate::state::WatchableState;
use crate::sync::{
    add_task, clone_of, downgrade, new_lock, read_after, read_with, take_tasks, wake_all_if_free,
    wake_each, waker_of, write_with, Farewell, Guarded, Receipt, WeakRef,
};
use crate::watcher::Progress;

verus! {

/// The state of a watchable, and the tasks that wait for it to change.
#[derive(Debug)]
#[verifier::reject_recursive_types(T)]
pub struct WatchableShared<T> {
    state: RwLock<WatchableState<T>>,
    watchers: Guarded<VecDeque<Waker>>,
}

/// What a thread can do in one go to a watched value and the tasks that wait for it.
#[verifier::reject_recursive_types(T)]
pub enum SharedStep<T> {
    /// It stores a value.
    Store(T),
    /// It wakes all tasks that wait. A thread that has stored a value does so next.
    WakeAll,
    /// It adds a task to those that wait.
    Join(Waker),
}

impl<T> WatchableShared<T> {
    /// The lock around the state.
    pub closed spec fn state_lock(self) -> RwLock<WatchableState<T>> {
        self.state
    }

    /// The list of the tasks that wait.
    pub closed spec fn task_list(self) -> Guarded<VecDeque<Waker>> {
        self.watchers
    }

    /// The lock around the state is one that `RwLock::new` gives for `state`.
    pub open spec fn began_as(self, state: WatchableState<T>) -> bool {
        crate::sync::made_with(self.state_lock(), state)
    }

    /// The list of waiting tasks was made without any.
    pub open spec fn began_unwatched(self) -> bool {
        exists|queued: VecDeque<Waker>| #[trigger]
            self.task_list().made_around(queued) && queued@.len() == 0
    }

    /// A thread took this step: it ran it on the lock that the step is about. Storing and joining
    /// give the receipt. Waking asks for it: it comes after what the receipt is for.
    pub open spec fn takes(self, step: SharedStep<T>, receipt: Receipt) -> bool {
        match step {
            SharedStep::Store(value) => crate::sync::writes(
                self.state_lock(),
                value,
                WatchableState::<T>::set,
                (),
                receipt,
            ),
            SharedStep::WakeAll => exists|queued: VecDeque<Waker>| #[trigger]
                self.task_list().locks_after((), take_tasks, receipt, queued)
                    && crate::sync::woke_all(queued@),
            SharedStep::Join(waker) => self.task_list().locks_first(waker, add_task, (), receipt),
        }
    }

    /// A thread stored `value`, and then woke all tasks that wait.
    pub open spec fn sets(self, value: T) -> bool {
        exists|receipt: Receipt| #[trigger]
            self.takes(SharedStep::Store(value), receipt) && self.takes(
                SharedStep::WakeAll,
                receipt,
            )
    }

    /// A thread offered `value` to the state, with this result, and then woke all tasks that wait
    /// if it was taken.
    pub open spec fn sets_if_changed(self, value: T, result: Result<T, T>) -> bool where
        T: PartialEq,
     {
        exists|receipt: Receipt| #[trigger]
            crate::sync::writes(
                self.state_lock(),
                value,
                WatchableState::<T>::set_if_changed,
                result,
                receipt,
            ) && (result is Ok ==> self.takes(SharedStep::WakeAll, receipt))
    }

    /// A thread changed the value in place with `f`, with this result, and then woke all tasks
    /// that wait.
    pub open spec fn modifies<F, R>(self, f: F, result: R) -> bool where F: FnOnce(&mut T) -> R {
        exists|receipt: Receipt| #[trigger]
            crate::sync::writes(
                self.state_lock(),
                f,
                WatchableState::<T>::modify::<F, R>,
                result,
                receipt,
            ) && self.takes(SharedStep::WakeAll, receipt)
    }

    /// A thread tried to wake all tasks that wait, and did unless someone else was at the list.
    pub open spec fn tries_to_wake(self) -> bool {
        exists|taken: Option<VecDeque<Waker>>| #[trigger]
            crate::sync::tries_to_take(self.task_list(), taken) && (taken matches Some(queued)
                ==> crate::sync::woke_all(queued@))
    }

    /// `answer` is what the state behind the lock says to whether it has changed since `epoch`.
    pub open spec fn answers_after(self, epoch: u64, answer: bool) -> bool {
        crate::sync::reads(self.state_lock(), epoch, WatchableState::<T>::is_after, answer)
    }

    /// A shared state around a value that has not changed yet, for which no task waits.
    pub fn new(value: T) -> (shared: Self)
        ensures
            shared.began_as(WatchableState::initial(value)),
            shared.began_unwatched(),
    {
        let queued = VecDeque::new();
        let ghost none = queued;
        let shared = WatchableShared {
            state: new_lock(WatchableState::new(value)),
            watchers: Guarded::new(queued, 0),
        };
        assert(shared.task_list().made_around(none));
        shared
    }

    /// Stores `value`, then wakes the waiting tasks.
    pub fn set(&self, value: T)
        ensures
            self.sets(value),
        opens_invariants [
            crate::sync::write_step(self.state_lock(), value, WatchableState::<T>::set),
            self.task_list().step(take_tasks),
        ]
    {
        let (_, receipt) = write_with(&self.state, value, WatchableState::<T>::set);
        assert(self.takes(SharedStep::Store(value), receipt));
        self.wake_all(receipt);
    }

    /// Stores `value` if it differs from the current one, and wakes the waiting tasks
    /// if so. Returns the old value if it was replaced, and hands `value` back if not.
    pub fn set_if_changed(&self, value: T) -> (result: Result<T, T>) where T: PartialEq
        ensures
            self.sets_if_changed(value, result),
            exists|current: T| #[trigger]
                crate::state::eq_answers(current, value, result is Err) && match result {
                    Ok(replaced) => replaced == current,
                    Err(refused) => refused == value,
                },
        opens_invariants [
            crate::sync::write_step(self.state_lock(), value, WatchableState::<T>::set_if_changed),
            self.task_list().step(take_tasks),
        ]
    {
        let (result, receipt) = write_with(
            &self.state,
            value,
            WatchableState::<T>::set_if_changed,
        );
        assert(crate::sync::writes(
            self.state_lock(),
            value,
            WatchableState::<T>::set_if_changed,
            result,
            receipt,
        ));
        if let Ok(_) = &result {
            self.wake_all(receipt);
        }
        result
    }

    /// Changes the value in place with `f`, then wakes the waiting tasks.
    pub fn modify<F, R>(&self, f: F) -> (result: R) where F: FnOnce(&mut T) -> R
        requires
            forall|value: &mut T| call_requires(f, (value,)),
        ensures
            self.modifies(f, result),
            exists|value: &mut T| call_ensures(f, (value,), result),
        opens_invariants [
            crate::sync::write_step(self.state_lock(), f, WatchableState::<T>::modify::<F, R>),
            self.task_list().step(take_tasks),
        ]
    {
        let (result, receipt) = write_with(&self.state, f, WatchableState::<T>::modify::<F, R>);
        assert(crate::sync::writes(
            self.state_lock(),
            f,
            WatchableState::<T>::modify::<F, R>,
            result,
            receipt,
        ));
        self.wake_all(receipt);
        result
    }

    /// Runs `f` on the value.
    pub fn read<F, R>(&self, f: F) -> (result: R) where F: FnOnce(&T) -> R
        requires
            forall|value: &T| call_requires(f, (value,)),
        ensures
            crate::sync::reads(self.state_lock(), f, WatchableState::<T>::read::<F, R>, result),
            exists|value: &T| call_ensures(f, (value,), result),
        opens_invariants none
    {
        read_with(&self.state, f, WatchableState::<T>::read::<F, R>)
    }

    /// Wakes every waiting task, after what the receipt is for.
    fn wake_all(&self, receipt: Receipt)
        ensures
            self.takes(SharedStep::WakeAll, receipt),
        opens_invariants [self.task_list().step(take_tasks)]
    {
        let queued = self.watchers.with_after((), take_tasks, receipt);
        let ghost taken = queued;
        wake_each(queued);
        assert(self.task_list().locks_after((), take_tasks, receipt, taken));
    }

    /// Wakes every waiting task, unless another thread is at the list of them.
    pub fn wake_all_if_free(&self, farewell: &mut Farewell)
        ensures
            self.tries_to_wake(),
        opens_invariants none
        no_unwind
    {
        wake_all_if_free(&self.watchers, farewell);
        proof {
            let taken = choose|taken: Option<VecDeque<Waker>>| #[trigger]
                crate::sync::tries_to_take(self.watchers, taken) && (taken matches Some(queued)
                    ==> crate::sync::woke_all(queued@));
            assert(crate::sync::tries_to_take(self.task_list(), taken));
        }
    }

    /// Adds a task to be woken at the next change. Gives a receipt for it.
    fn register(&self, waker: Waker) -> (receipt: Receipt)
        ensures
            self.takes(SharedStep::Join(waker), receipt),
        opens_invariants [self.task_list().step(add_task)]
    {
        let (_, receipt) = self.watchers.with_first(waker, add_task);
        receipt
    }

    /// Whether the state has changed since `epoch`.
    fn is_after(&self, epoch: u64) -> (after: bool)
        ensures
            self.answers_after(epoch, after),
        opens_invariants none
    {
        read_with(&self.state, epoch, WatchableState::<T>::is_after)
    }
}

impl<T: Clone> WatchableShared<T> {
    /// `value` is a clone of the value behind the lock.
    pub open spec fn clones_value(self, value: T) -> bool {
        crate::sync::reads(self.state_lock(), (), WatchableState::<T>::clone_value, value)
    }

    /// `copy` is a copy of the state behind the lock.
    pub open spec fn clones_state(self, copy: WatchableState<T>) -> bool {
        crate::sync::reads(self.state_lock(), (), clone_of::<WatchableState<T>>, copy)
    }

    /// `news` is what the state behind the lock has to tell since `epoch`.
    pub open spec fn tells(self, epoch: u64, news: Option<WatchableState<T>>) -> bool {
        crate::sync::reads(self.state_lock(), epoch, WatchableState::<T>::since, news)
    }

    /// A look at the state takes what a watcher saw from `pre` to `post`: to a copy of the state
    /// if it had news since `pre`, and nowhere if not.
    pub open spec fn shows(
        self,
        pre: WatchableState<T>,
        post: WatchableState<T>,
        changed: bool,
    ) -> bool {
        exists|news: Option<WatchableState<T>>| #[trigger]
            self.tells(pre.epoch, news) && changed == news is Some && post == match news {
                Some(copy) => copy,
                None => pre,
            }
    }

    /// A look at the state, as [`WatchableShared::shows`] says, after what the receipt is for.
    pub open spec fn shows_after(
        self,
        pre: WatchableState<T>,
        post: WatchableState<T>,
        changed: bool,
        receipt: Receipt,
    ) -> bool {
        exists|news: Option<WatchableState<T>>| #[trigger]
            self.tells_after(pre.epoch, receipt, news) && changed == news is Some && post
                == match news {
                Some(copy) => copy,
                None => pre,
            }
    }

    /// `news` is what the state behind the lock has to tell since `epoch`, after what the receipt
    /// is for.
    pub open spec fn tells_after(
        self,
        epoch: u64,
        receipt: Receipt,
        news: Option<WatchableState<T>>,
    ) -> bool {
        crate::sync::reads_after(
            self.state_lock(),
            epoch,
            WatchableState::<T>::since,
            receipt,
            news,
        )
    }

    /// Polling takes what a watcher saw from `pre` to `post`. It looks at the state, and if
    /// there is nothing new, it leaves a waker of the task on the list, and after that looks once
    /// more.
    pub open spec fn polled(
        self,
        pre: WatchableState<T>,
        post: WatchableState<T>,
        task: Set<Waker>,
        outcome: Progress,
    ) -> bool {
        ||| outcome is Changed && self.shows(pre, post, true)
        ||| {
            &&& !(outcome is Gone)
            &&& self.shows(pre, pre, false)
            &&& exists|waker: Waker, receipt: Receipt| #[trigger]
                self.takes(SharedStep::Join(waker), receipt) && task.contains(waker)
                    && self.shows_after(pre, post, outcome is Changed, receipt)
        }
    }

    /// Returns a clone of the value.
    pub fn get(&self) -> (value: T)
        ensures
            self.clones_value(value),
            exists|current: T| strictly_cloned(current, value),
        opens_invariants none
    {
        read_with(&self.state, (), WatchableState::<T>::clone_value)
    }

    /// Returns a copy of the state.
    pub fn snapshot(&self) -> (copy: WatchableState<T>)
        ensures
            self.clones_state(copy),
            exists|current: WatchableState<T>| current.copies(copy),
        opens_invariants none
    {
        read_with(&self.state, (), clone_of::<WatchableState<T>>)
    }

    /// Looks at the state and brings `seen` up to date. Returns whether there was a change.
    fn look(&self, seen: &mut WatchableState<T>) -> (changed: bool)
        ensures
            self.shows(*old(seen), *final(seen), changed),
        opens_invariants none
    {
        let news = read_with(&self.state, seen.epoch, WatchableState::<T>::since);
        assert(self.tells(seen.epoch, news));
        seen.take_in(news)
    }

    /// Looks at the state once more, after what the receipt is for.
    fn look_again(&self, seen: &mut WatchableState<T>, receipt: Receipt) -> (changed: bool)
        ensures
            self.shows_after(*old(seen), *final(seen), changed, receipt),
        opens_invariants none
    {
        let news = read_after(&self.state, seen.epoch, WatchableState::<T>::since, receipt);
        assert(self.tells_after(seen.epoch, receipt, news));
        seen.take_in(news)
    }

    /// Polls the state: looks at it, and if there is nothing new, leaves the task's waker
    /// there and looks once more, so that no change in between goes unnoticed.
    fn poll(&self, seen: &mut WatchableState<T>, cx: &mut Context<'_>) -> (outcome: Poll<
        Result<(), Disconnected>,
    >)
        ensures
            self.polled(
                *old(seen),
                *final(seen),
                crate::sync::task_of(*old(cx)),
                crate::watcher::progress(outcome),
            ),
            *final(cx) == *old(cx),
        opens_invariants [self.task_list().step(add_task)]
    {
        if self.look(seen) {
            return Poll::Ready(Ok(()));
        }
        assert(*seen == *old(seen));
        let waker = waker_of(cx);
        let ghost joining = waker;
        let receipt = self.register(waker);
        assert(self.takes(SharedStep::Join(joining), receipt));
        if self.look_again(seen, receipt) {
            Poll::Ready(Ok(()))
        } else {
            Poll::Pending
        }
    }
}

/// An update takes what a watcher saw from `pre` to `post` by what it found: it looks at the
/// shared state, and stays where it is if that is gone.
pub open spec fn updates_found<T: Clone>(
    found: Option<Arc<WatchableShared<T>>>,
    pre: WatchableState<T>,
    post: WatchableState<T>,
    changed: bool,
) -> bool {
    match found {
        Some(shared) => shared.shows(pre, post, changed),
        None => post == pre && !changed,
    }
}

/// Polling takes what a watcher saw from `pre` to `post` by what it found: it polls the shared
/// state, and fails exactly if that is gone.
pub open spec fn polls_found<T: Clone>(
    found: Option<Arc<WatchableShared<T>>>,
    pre: WatchableState<T>,
    post: WatchableState<T>,
    task: Set<Waker>,
    outcome: Progress,
) -> bool {
    match found {
        Some(shared) => shared.polled(pre, post, task, outcome),
        None => outcome is Gone && post == pre,
    }
}

/// A watcher is asked whether a change is pending and answers by what it found.
pub open spec fn answers_found<T>(
    found: Option<Arc<WatchableShared<T>>>,
    seen: WatchableState<T>,
    answer: bool,
) -> bool {
    match found {
        Some(shared) => shared.answers_after(seen.epoch, answer),
        None => !answer,
    }
}

/// An update of a watcher that looks for its source by `link`.
pub open spec fn updates_seen<T: Clone>(
    link: WeakRef<WatchableShared<T>>,
    pre: WatchableState<T>,
    post: WatchableState<T>,
    changed: bool,
) -> bool {
    exists|found: Option<Arc<WatchableShared<T>>>| #[trigger]
        link.gives(found) && updates_found(found, pre, post, changed)
}

/// A poll of a watcher that looks for its source by `link`.
pub open spec fn polls_seen<T: Clone>(
    link: WeakRef<WatchableShared<T>>,
    pre: WatchableState<T>,
    post: WatchableState<T>,
    task: Set<Waker>,
    outcome: Progress,
) -> bool {
    exists|found: Option<Arc<WatchableShared<T>>>| #[trigger]
        link.gives(found) && polls_found(found, pre, post, task, outcome)
}

/// The answer of a watcher that looks for its source by `link`.
pub open spec fn answers_behind<T>(
    link: WeakRef<WatchableShared<T>>,
    seen: WatchableState<T>,
    answer: bool,
) -> bool {
    exists|found: Option<Arc<WatchableShared<T>>>| #[trigger]
        link.gives(found) && answers_found(found, seen, answer)
}

/// Looks at what was found of the shared state, and brings `seen` up to date. Returns whether
/// there was a change.
pub fn update_found<T: Clone>(
    found: Option<Arc<WatchableShared<T>>>,
    seen: &mut WatchableState<T>,
) -> (changed: bool)
    ensures
        updates_found(found, *old(seen), *final(seen), changed),
    opens_invariants none
{
    match found {
        Some(shared) => shared.look(seen),
        None => false,
    }
}

/// Polls what was found of the shared state. Fails exactly if nothing was.
pub fn poll_found<T: Clone>(
    found: Option<Arc<WatchableShared<T>>>,
    seen: &mut WatchableState<T>,
    cx: &mut Context<'_>,
) -> (outcome: Poll<Result<(), Disconnected>>)
    ensures
        polls_found(
            found,
            *old(seen),
            *final(seen),
            crate::sync::task_of(*old(cx)),
            crate::watcher::progress(outcome),
        ),
        found is None <==> outcome == Poll::<Result<(), Disconnected>>::Ready(Err(Disconnected)),
        *final(cx) == *old(cx),
    opens_invariants [found->0.task_list().step(add_task)]
{
    match found {
        Some(shared) => shared.poll(seen, cx),
        None => Poll::Ready(Err(Disconnected)),
    }
}

/// Whether what was found of the shared state has changed since `seen`.
pub fn is_found_ahead<T>(
    found: Option<Arc<WatchableShared<T>>>,
    seen: &WatchableState<T>,
) -> (ahead: bool)
    ensures
        answers_found(found, *seen, ahead),
    opens_invariants none
{
    match found {
        Some(shared) => shared.is_after(seen.epoch),
        None => false,
    }
}

/// Looks at the shared state, if it is still there, and brings `seen` up to date.
/// Returns whether there was a change.
pub(crate) fn update_seen<T: Clone>(
    link: &WeakRef<WatchableShared<T>>,
    seen: &mut WatchableState<T>,
) -> (changed: bool)
    ensures
        updates_seen(*link, *old(seen), *final(seen), changed),
    opens_invariants none
{
    let found = link.find();
    let ghost source = found;
    assert(link.gives(source));
    update_found(found, seen)
}

/// Whether the shared state, if it is still there, has changed since `seen`.
pub(crate) fn is_behind<T>(
    link: &WeakRef<WatchableShared<T>>,
    seen: &WatchableState<T>,
) -> (behind: bool)
    ensures
        answers_behind(*link, *seen, behind),
    opens_invariants none
{
    let found = link.find();
    let ghost source = found;
    assert(link.gives(source));
    is_found_ahead(found, seen)
}

/// Polls the shared state. Fails exactly if it is gone.
pub(crate) fn poll_seen<T: Clone>(
    link: &WeakRef<WatchableShared<T>>,
    seen: &mut WatchableState<T>,
    cx: &mut Context<'_>,
) -> (outcome: Poll<Result<(), Disconnected>>)
    ensures
        polls_seen(
            *link,
            *old(seen),
            *final(seen),
            crate::sync::task_of(*old(cx)),
            crate::watcher::progress(outcome),
        ),
        *final(cx) == *old(cx),
    opens_invariants [link.target().task_list().step(add_task)]
{
    let found = link.find();
    let ghost source = found;
    assert(link.gives(source));
    match found {
        Some(shared) => poll_found(Some(shared), seen, cx),
        None => Poll::Ready(Err(Disconnected)),
    }
}

/// The reference by which a watcher looks for its source.
///
/// The weak reference in it is private. All that a watcher can do with it is to look at the source
/// and to wait for it, so that it can neither change the source nor wake those who wait.
#[verifier::reject_recursive_types(T)]
pub struct SharedLink<T> {
    reference: WeakRef<WatchableShared<T>>,
}

impl<T> SharedLink<T> {
    /// The weak reference to the source.
    pub closed spec fn reference(self) -> WeakRef<WatchableShared<T>> {
        self.reference
    }

    /// A reference to the shared state.
    pub(crate) fn to(shared: &Arc<WatchableShared<T>>) -> (link: Self)
        ensures
            link.reference().target() == *shared,
        opens_invariants none
    {
        SharedLink { reference: downgrade(shared) }
    }

    /// Whether the source is still there.
    pub(crate) fn is_connected(&self) -> (connected: bool)
        ensures
            exists|found: Option<Arc<WatchableShared<T>>>| #[trigger]
                self.reference().gives(found) && connected == found is Some,
        opens_invariants none
    {
        let found = self.reference.find();
        assert(self.reference().gives(found));
        match found {
            Some(_) => true,
            None => false,
        }
    }

    /// Whether the source, if it is still there, has changed since `seen`.
    pub(crate) fn is_behind(&self, seen: &WatchableState<T>) -> (behind: bool)
        ensures
            answers_behind(self.reference(), *seen, behind),
        opens_invariants none
    {
        is_behind(&self.reference, seen)
    }
}

impl<T: Clone> SharedLink<T> {
    /// Looks at the source, if it is still there, and brings `seen` up to date. Returns whether
    /// there was a change.
    pub(crate) fn update(&self, seen: &mut WatchableState<T>) -> (changed: bool)
        ensures
            updates_seen(self.reference(), *old(seen), *final(seen), changed),
        opens_invariants none
    {
        update_seen(&self.reference, seen)
    }

    /// Polls the source. Fails exactly if it is gone.
    pub(crate) fn poll(&self, seen: &mut WatchableState<T>, cx: &mut Context<'_>) -> (outcome: Poll<
        Result<(), Disconnected>,
    >)
        ensures
            polls_seen(
                self.reference(),
                *old(seen),
                *final(seen),
                crate::sync::task_of(*old(cx)),
                crate::watcher::progress(outcome),
            ),
            *final(cx) == *old(cx),
        opens_invariants [self.reference().target().task_list().step(add_task)]
    {
        poll_seen(&self.reference, seen, cx)
    }
}

impl<T> Clone for SharedLink<T> {
    fn clone(&self) -> (copy: Self)
        ensures
            copy == *self,
    {
        SharedLink { reference: self.reference.clone() }
    }
}

/// What was found, if anything, has changed since `seen`.
pub open spec fn is_news<T>(latest: Option<WatchableState<T>>, seen: WatchableState<T>) -> bool {
    latest matches Some(latest) && latest.newer_than(seen)
}

/// What a look at a shared state comes to is what comes of comparing what was seen with the
/// state that was found behind the lock.
pub proof fn law_shows_is_a_look<T: Clone>(
    shared: &WatchableShared<T>,
    pre: WatchableState<T>,
    post: WatchableState<T>,
    changed: bool,
) -> (latest: WatchableState<T>)
    requires
        shared.shows(pre, post, changed),
    ensures
        WatchableState::looks(pre, Some(latest), post, changed),
{
    let news = choose|news: Option<WatchableState<T>>| #[trigger]
        shared.tells(pre.epoch, news) && changed == news is Some && post == match news {
            Some(copy) => copy,
            None => pre,
        };
    lemma_tells(shared, pre.epoch, news)
}

/// What a shared state has to tell is what the state that was found behind the lock has to tell.
proof fn lemma_tells<T: Clone>(
    shared: &WatchableShared<T>,
    epoch: u64,
    news: Option<WatchableState<T>>,
) -> (latest: WatchableState<T>)
    requires
        shared.tells(epoch, news),
    ensures
        latest.tells(epoch, news),
{
    crate::sync::law_reads(shared.state_lock(), epoch, WatchableState::<T>::since, news);
    let content = choose|content: &WatchableState<T>|
        call_ensures(WatchableState::<T>::since, (content, epoch), news);
    assert(content.tells(epoch, news));
    *content
}

/// A look after something else is a look.
pub proof fn law_shows_after_is_a_look<T: Clone>(
    shared: &WatchableShared<T>,
    pre: WatchableState<T>,
    post: WatchableState<T>,
    changed: bool,
    receipt: Receipt,
) -> (latest: WatchableState<T>)
    requires
        shared.shows_after(pre, post, changed, receipt),
    ensures
        WatchableState::looks(pre, Some(latest), post, changed),
{
    let news = choose|news: Option<WatchableState<T>>| #[trigger]
        shared.tells_after(pre.epoch, receipt, news) && changed == news is Some && post
            == match news {
            Some(copy) => copy,
            None => pre,
        };
    crate::sync::law_reads_after(
        shared.state_lock(),
        pre.epoch,
        WatchableState::<T>::since,
        receipt,
        news,
    );
    lemma_tells(shared, pre.epoch, news)
}

/// A poll of a shared state comes to a look at what was found behind the lock.
proof fn lemma_polled<T: Clone>(
    shared: &WatchableShared<T>,
    pre: WatchableState<T>,
    post: WatchableState<T>,
    task: Set<Waker>,
    outcome: Progress,
) -> (latest: WatchableState<T>)
    requires
        shared.polled(pre, post, task, outcome),
    ensures
        !(outcome is Gone),
        WatchableState::looks(pre, Some(latest), post, outcome is Changed),
{
    if outcome is Changed && shared.shows(pre, post, true) {
        law_shows_is_a_look(shared, pre, post, true)
    } else {
        let (waker, receipt) = choose|waker: Waker, receipt: Receipt| #[trigger]
            shared.takes(SharedStep::Join(waker), receipt) && task.contains(waker)
                && shared.shows_after(pre, post, outcome is Changed, receipt);
        law_shows_after_is_a_look(shared, pre, post, outcome is Changed, receipt)
    }
}

/// An update is a look at the state behind the lock of the source, or finds the source gone.
pub proof fn law_update_is_a_look<T: Clone>(
    link: WeakRef<WatchableShared<T>>,
    pre: WatchableState<T>,
    post: WatchableState<T>,
    changed: bool,
) -> (latest: Option<WatchableState<T>>)
    requires
        updates_seen(link, pre, post, changed),
    ensures
        WatchableState::looks(pre, latest, post, changed),
        latest is None ==> link.gives(None),
{
    let found = choose|found: Option<Arc<WatchableShared<T>>>| #[trigger]
        link.gives(found) && updates_found(found, pre, post, changed);
    match found {
        Some(shared) => Some(law_shows_is_a_look(&shared, pre, post, changed)),
        None => None,
    }
}

/// The answer to whether a change is pending goes by the state behind the lock of the source, or
/// finds the source gone.
pub proof fn law_answer_goes_by_a_look<T>(
    link: WeakRef<WatchableShared<T>>,
    seen: WatchableState<T>,
    answer: bool,
) -> (latest: Option<WatchableState<T>>)
    requires
        answers_behind(link, seen, answer),
    ensures
        answer == is_news(latest, seen),
        latest is None ==> link.gives(None),
{
    let found = choose|found: Option<Arc<WatchableShared<T>>>| #[trigger]
        link.gives(found) && answers_found(found, seen, answer);
    match found {
        Some(shared) => Some(lemma_answers_after(&shared, seen.epoch, answer)),
        None => None,
    }
}

/// The answer of a shared state goes by the state that was found behind the lock.
proof fn lemma_answers_after<T>(shared: &WatchableShared<T>, epoch: u64, answer: bool) -> (latest:
    WatchableState<T>)
    requires
        shared.answers_after(epoch, answer),
    ensures
        answer == (latest.epoch > epoch),
{
    crate::sync::law_reads(shared.state_lock(), epoch, WatchableState::<T>::is_after, answer);
    let content = choose|content: &WatchableState<T>|
        call_ensures(WatchableState::<T>::is_after, (content, epoch), answer);
    assert(answer == (content.epoch > epoch));
    *content
}

/// Polling fails exactly if the source is found gone. Otherwise it comes to a look at the state
/// behind the lock of the source: it tells a change exactly if the look does.
pub proof fn law_poll_is_a_look<T: Clone>(
    link: WeakRef<WatchableShared<T>>,
    pre: WatchableState<T>,
    post: WatchableState<T>,
    task: Set<Waker>,
    outcome: Progress,
) -> (latest: Option<WatchableState<T>>)
    requires
        polls_seen(link, pre, post, task, outcome),
    ensures
        WatchableState::looks(pre, latest, post, outcome is Changed),
        latest is None <==> outcome is Gone,
        outcome is Gone ==> link.gives(None) && post == pre,
        !(outcome is Gone) ==> link.gives(Some(link.target())),
{
    let found = choose|found: Option<Arc<WatchableShared<T>>>| #[trigger]
        link.gives(found) && polls_found(found, pre, post, task, outcome);
    link.law_gives(found);
    match found {
        Some(shared) => Some(lemma_polled(&shared, pre, post, task, outcome)),
        None => None,
    }
}

} // verus!
