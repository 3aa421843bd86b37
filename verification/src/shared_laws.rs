//! What holds of a watched value and the tasks that wait for it, however many threads are at
//! them.
//!
//! The value and the list of waiting tasks are behind locks of their own, so what one thread
//! does to the one can come between any two things that another does to the other.
use std::collections::VecDeque;
use std::task::Waker;

use vstd::prelude::*;

use crate::shared::{SharedStep, WatchableShared};
use crate::state::WatchableState;
use crate::sync::{add_task, take_tasks, Receipt};

verus! {

/// A watched value, the tasks that wait for it, and those that were woken so far.
#[verifier::ext_equal]
#[verifier::reject_recursive_types(T)]
pub struct SharedView<T> {
    /// The value and its epoch.
    pub state: WatchableState<T>,
    /// The tasks that wait, in the order in which they came.
    pub watchers: Seq<Waker>,
    /// The tasks that were woken, in that order.
    pub woken: Seq<Waker>,
}

impl<T> SharedView<T> {
    /// What one step leads to.
    pub open spec fn stepped(self, step: SharedStep<T>) -> Self {
        match step {
            SharedStep::Store(value) => SharedView { state: self.state.after_set(value), ..self },
            SharedStep::WakeAll => SharedView {
                state: self.state,
                watchers: Seq::empty(),
                woken: self.woken + self.watchers,
            },
            SharedStep::Join(waker) => SharedView {
                watchers: self.watchers.push(waker),
                ..self
            },
        }
    }

    /// What several steps lead to, the first of them first.
    pub open spec fn stepped_all(self, steps: Seq<SharedStep<T>>) -> Self
        decreases steps.len(),
    {
        if steps.len() == 0 {
            self
        } else {
            self.stepped_all(steps.drop_last()).stepped(steps.last())
        }
    }
}

/// The steps are what the functions do that are run behind the two locks, whatever they find
/// there: storing a value is what setting it runs behind the one, waking all takes everyone off
/// the list behind the other, and joining adds to it.
pub proof fn law_steps_are_what_runs<T>(value: T, waker: Waker)
    ensures
        forall|content: &mut WatchableState<T>, shared: SharedView<T>|
            #![trigger call_ensures(WatchableState::<T>::set, (content, value), ()), shared.stepped(
                SharedStep::Store(value),
            )]
            call_ensures(WatchableState::<T>::set, (content, value), ()) && shared.state == *content
                ==> shared.stepped(SharedStep::Store(value)).state == *final(content),
        forall|content: &mut VecDeque<Waker>, taken: VecDeque<Waker>, shared: SharedView<T>|
            #![trigger call_ensures(take_tasks, (content, ()), taken), shared.stepped(
                SharedStep::WakeAll,
            )]
            call_ensures(take_tasks, (content, ()), taken) && shared.watchers == (*content)@ ==> {
                &&& shared.stepped(SharedStep::WakeAll).watchers == final(content)@
                &&& shared.stepped(SharedStep::WakeAll).woken == shared.woken + taken@
            },
        forall|content: &mut VecDeque<Waker>, shared: SharedView<T>|
            #![trigger call_ensures(add_task, (content, waker), ()), shared.stepped(
                SharedStep::Join(waker),
            )]
            call_ensures(add_task, (content, waker), ()) && shared.watchers == (*content)@
                ==> shared.stepped(SharedStep::Join(waker)).watchers == final(content)@,
{
}

/// A thread that wakes all takes the list of tasks that it finds behind the lock, and wakes every
/// task on it.
pub proof fn law_waking_all_wakes_who_was_found<T>(shared: &WatchableShared<T>, receipt: Receipt)
    requires
        shared.takes(SharedStep::WakeAll, receipt),
    ensures
        exists|found: &mut VecDeque<Waker>, taken: VecDeque<Waker>| #[trigger]
            call_ensures(take_tasks, (found, ()), taken) && final(found)@.len() == 0
                && crate::sync::woke_all((*found)@),
{
    let taken = choose|queued: VecDeque<Waker>| #[trigger]
        shared.task_list().locks_after((), take_tasks, receipt, queued) && crate::sync::woke_all(
            queued@,
        );
    shared.task_list().law_order((), take_tasks, receipt, taken);
    shared.task_list().law_locks((), take_tasks, taken);
}

/// The epoch never goes back, and a task that has joined waits or was woken.
proof fn lemma_stepped_all<T>(shared: SharedView<T>, steps: Seq<SharedStep<T>>, waker: Waker)
    requires
        shared.state.epoch + steps.len() <= u64::MAX,
    ensures
        shared.state.epoch <= shared.stepped_all(steps).state.epoch,
        shared.stepped_all(steps).state.epoch <= shared.state.epoch + steps.len(),
        shared.watchers.contains(waker) || shared.woken.contains(waker)
            ==> shared.stepped_all(steps).watchers.contains(waker) || shared.stepped_all(
            steps,
        ).woken.contains(waker),
    decreases steps.len(),
{
    if steps.len() > 0 {
        lemma_stepped_all(shared, steps.drop_last(), waker);
        let before = shared.stepped_all(steps.drop_last());
        let after = before.stepped(steps.last());
        if before.watchers.contains(waker) {
            let i = choose|i: int| 0 <= i < before.watchers.len() && before.watchers[i] == waker;
            match steps.last() {
                SharedStep::WakeAll => assert(after.woken[before.woken.len() + i] == waker),
                _ => assert(after.watchers[i] == waker),
            }
        } else if before.woken.contains(waker) {
            let i = choose|i: int| 0 <= i < before.woken.len() && before.woken[i] == waker;
            assert(after.woken[i] == waker);
        }
    }
}

/// No change goes unnoticed. A watcher that had caught up with a value begins to wait, and
/// then looks once more. Whatever the other threads do before it waits and before it looks, it
/// either finds a change, or it is waiting, or it was woken already. The epochs have to last.
pub proof fn law_no_change_goes_unnoticed<T>(
    shared: SharedView<T>,
    seen: WatchableState<T>,
    before: Seq<SharedStep<T>>,
    waker: Waker,
    after: Seq<SharedStep<T>>,
)
    requires
        seen.epoch == shared.state.epoch,
        shared.state.epoch + before.len() + after.len() <= u64::MAX,
    ensures
        ({
            let end = shared.stepped_all(before).stepped(SharedStep::Join(waker)).stepped_all(after);
            ||| end.state.newer_than(seen)
            ||| end.watchers.contains(waker)
            ||| end.woken.contains(waker)
        }),
{
    lemma_stepped_all(shared, before, waker);
    let waiting = shared.stepped_all(before).stepped(SharedStep::Join(waker));
    assert(waiting.watchers.last() == waker);
    lemma_stepped_all(waiting, after, waker);
}

/// Setting a value stores it and wakes everyone. The value is there, whatever it was before.
/// Every watcher is behind, also where the new value is equal to the old one. Each task that
/// waited is woken, once for each time that it had joined. Setting another value wakes none of
/// them again, but for a task that has joined again. The epochs have to last.
pub proof fn law_set_wakes_each_waiting_task_once<T>(
    shared: SharedView<T>,
    value: T,
    other: T,
    waker: Waker,
    seen: WatchableState<T>,
)
    requires
        seen.epoch <= shared.state.epoch,
        shared.state.epoch < u64::MAX,
    ensures
        ({
            let first = shared.stepped(SharedStep::Store(value)).stepped(SharedStep::WakeAll);
            let second = first.stepped(SharedStep::Store(other)).stepped(SharedStep::WakeAll);
            let again = first.stepped(SharedStep::Join(waker)).stepped(
                SharedStep::Store(other),
            ).stepped(SharedStep::WakeAll);
            &&& first.state.value == value
            &&& first.state.newer_than(seen)
            &&& first.watchers == Seq::<Waker>::empty()
            &&& first.woken == shared.woken + shared.watchers
            &&& second.state.value == other
            &&& second.watchers == Seq::<Waker>::empty()
            &&& second.woken == first.woken
            &&& again.watchers == Seq::<Waker>::empty()
            &&& again.woken == first.woken.push(waker)
        }),
{
    let first = shared.stepped(SharedStep::Store(value)).stepped(SharedStep::WakeAll);
    assert(first.woken + Seq::<Waker>::empty() =~= first.woken);
    assert(first.woken + Seq::<Waker>::empty().push(waker) =~= first.woken.push(waker));
}

/// Whoever takes the list of waiting tasks after another one took it, and before anyone joined,
/// finds nobody on it. A task that joined in between is all that is found.
pub proof fn law_taken_tasks_are_not_taken_again(waker: Waker)
    ensures
        forall|
            found: &mut VecDeque<Waker>,
            taken: VecDeque<Waker>,
            again: &mut VecDeque<Waker>,
            left: VecDeque<Waker>,
        |
            #![trigger call_ensures(take_tasks, (found, ()), taken), call_ensures(
                take_tasks,
                (again, ()),
                left,
            )]
            call_ensures(take_tasks, (found, ()), taken) && call_ensures(
                take_tasks,
                (again, ()),
                left,
            ) && *again == *final(found) ==> taken@ == (*found)@ && left@.len() == 0,
        forall|
            found: &mut VecDeque<Waker>,
            taken: VecDeque<Waker>,
            joined: &mut VecDeque<Waker>,
            again: &mut VecDeque<Waker>,
            left: VecDeque<Waker>,
        |
            #![trigger call_ensures(take_tasks, (found, ()), taken), call_ensures(
                add_task,
                (joined, waker),
                (),
            ), call_ensures(take_tasks, (again, ()), left)]
            call_ensures(take_tasks, (found, ()), taken) && call_ensures(
                add_task,
                (joined, waker),
                (),
            ) && call_ensures(take_tasks, (again, ()), left) && *joined == *final(found) && *again
                == *final(joined) ==> left@ =~= seq![waker],
{
}

/// A change that is followed by waking leaves nobody waiting: every task that waited, whether
/// since before the change or since after it, was woken.
pub proof fn law_waking_leaves_nobody_waiting<T>(
    shared: SharedView<T>,
    value: T,
    between: Seq<SharedStep<T>>,
    waker: Waker,
)
    requires
        shared.watchers.contains(waker),
        shared.state.epoch + 1 + between.len() <= u64::MAX,
    ensures
        ({
            let end = shared.stepped(SharedStep::Store(value)).stepped_all(between).stepped(
                SharedStep::WakeAll,
            );
            &&& end.watchers.len() == 0
            &&& end.woken.contains(waker)
        }),
{
    let stored = shared.stepped(SharedStep::Store(value));
    lemma_stepped_all(stored, between, waker);
    let waking = stored.stepped_all(between);
    let end = waking.stepped(SharedStep::WakeAll);
    if waking.watchers.contains(waker) {
        let i = choose|i: int| 0 <= i < waking.watchers.len() && waking.watchers[i] == waker;
        assert(end.woken[waking.woken.len() + i] == waker);
    } else {
        let i = choose|i: int| 0 <= i < waking.woken.len() && waking.woken[i] == waker;
        assert(end.woken[i] == waker);
    }
}

} // verus!
