//! What each operation of a handle comes to, call by call.
//!
//! A handle shares its content and the bookkeeping next to it with everyone else who has one. Its
//! operations are a call or two each: the content is read or written under its lock, and a change
//! is told after that, to those who wait for one. Here that is spelled out for every operation.
use std::collections::{HashMap, VecDeque};
use std::hash::Hash;
use std::sync::Arc;
use std::task::Waker;

use vstd::prelude::*;

use crate::atomic::{Stored, WatchableAtomic};
use crate::change::{MapChange, ValueChange, VecChange};
use crate::change_watcher::ChangeWatcher;
use crate::epoch_watcher::EpochWatcher;
use crate::fast::{DirectFast, WatchableFast};
use crate::history_value::{modify_value, replace_value, WatchableWithHistory};
use crate::lite::{replace_with, WatchableLite};
use crate::lite_map::{store_entry, take_entry, WatchableMapLite};
use crate::lite_vec::{put_at, put_in, put_last, take_last, take_out, WatchableVecLite};
use crate::log::{Aftermath, ChangeLog, Collected};
use crate::map::{
    clear_entries, count_entries, get_entry, has_entry, insert_entry, lacks_entries, remove_entry,
    WatchableMap,
};
use crate::notifier::{note_change, Notifier};
use crate::shared::WatchableShared;
use crate::state::WatchableState;
use crate::sync::{
    add_task, clone_of, run_on, run_on_mut, take_tasks, Farewell, Guarded, Receipt,
};
use crate::value::{Direct, Watchable};
use crate::vec::{
    clear_values, count_elements, get_cloned, insert_value, lacks_elements, pop_value, push_value,
    remove_value, replace_element, WatchableVec,
};

verus! {

/// Setting a watchable stores the value, and after that takes every task off the list and wakes
/// it.
pub proof fn law_set_stores_then_wakes<T: Clone>(handle: &Watchable<T>, value: T)
    requires
        call_ensures(Watchable::<T>::set, (handle, value), ()),
    ensures
        exists|receipt: Receipt, queued: VecDeque<Waker>|
            #[trigger] crate::sync::writes(
                handle.shared().state_lock(),
                value,
                WatchableState::<T>::set,
                (),
                receipt,
            )
                && #[trigger] handle.shared(
                    ).task_list().locks_after((),
                    take_tasks,
                    receipt,
                    queued,
                )
                && crate::sync::woke_all(
                queued@,
            ),
{
}

/// Modifying a watchable runs the function under the lock, and after that takes every task off
/// the list and wakes it.
pub proof fn law_modify_changes_then_wakes<T: Clone, F: FnOnce(&mut T) -> R, R>(
    handle: &Watchable<T>,
    f: F,
    result: R,
)
    requires
        call_ensures(Watchable::<T>::modify::<F, R>, (handle, f), result),
    ensures
        exists|receipt: Receipt, queued: VecDeque<Waker>|
            #[trigger] crate::sync::writes(
                handle.shared().state_lock(),
                f,
                WatchableState::<T>::modify::<F, R>,
                result,
                receipt,
            )
                && #[trigger] handle.shared(
                    ).task_list().locks_after((),
                    take_tasks,
                    receipt,
                    queued,
                )
                && crate::sync::woke_all(
                queued@,
            ),
{
}

/// Setting a watchable of the fast kind stores the value, and after that takes every task off the
/// list and wakes it.
pub proof fn law_set_stores_then_wakes_fast<T: Clone>(handle: &WatchableFast<T>, value: T)
    requires
        call_ensures(WatchableFast::<T>::set, (handle, value), ()),
    ensures
        exists|receipt: Receipt, queued: VecDeque<Waker>|
            #[trigger] crate::sync::writes(
                handle.shared().state_lock(),
                value,
                WatchableState::<T>::set,
                (),
                receipt,
            )
                && #[trigger] handle.shared(
                    ).task_list().locks_after((),
                    take_tasks,
                    receipt,
                    queued,
                )
                && crate::sync::woke_all(
                queued@,
            ),
{
}

/// Modifying a watchable of the fast kind runs the function under the lock, and after that takes
/// every task off the list and wakes it.
pub proof fn law_modify_changes_then_wakes_fast<T: Clone, F: FnOnce(&mut T) -> R, R>(
    handle: &WatchableFast<T>,
    f: F,
    result: R,
)
    requires
        call_ensures(WatchableFast::<T>::modify::<F, R>, (handle, f), result),
    ensures
        exists|receipt: Receipt, queued: VecDeque<Waker>|
            #[trigger] crate::sync::writes(
                handle.shared().state_lock(),
                f,
                WatchableState::<T>::modify::<F, R>,
                result,
                receipt,
            )
                && #[trigger] handle.shared(
                    ).task_list().locks_after((),
                    take_tasks,
                    receipt,
                    queued,
                )
                && crate::sync::woke_all(
                queued@,
            ),
{
}

/// Offering a value to a watchable stores it if it differs from the one that is there. If so, every
/// task is taken off the list after that and woken.
pub proof fn law_offer_stores_then_wakes<T: Clone + PartialEq>(
    handle: &Watchable<T>,
    value: T,
    result: Result<T, T>,
)
    requires
        call_ensures(Watchable::<T>::set_if_changed, (handle, value), result),
    ensures
        exists|receipt: Receipt| #[trigger]
            crate::sync::writes(
                handle.shared().state_lock(),
                value,
                WatchableState::<T>::set_if_changed,
                result,
                receipt,
            ) && (result is Ok ==> exists|queued: VecDeque<Waker>| #[trigger]
                handle.shared().task_list().locks_after((), take_tasks, receipt, queued)
                    && crate::sync::woke_all(
                queued@,
            )),
{
}

/// Offering a value to a watchable of the fast kind stores it if it differs from the one that is
/// there, and tells so. If so, every task is taken off the list after that and woken.
pub proof fn law_offer_stores_then_wakes_fast<T: Clone + PartialEq>(
    handle: &WatchableFast<T>,
    value: T,
    changed: bool,
)
    requires
        call_ensures(WatchableFast::<T>::set_if_changed, (handle, value), changed),
    ensures
        exists|result: Result<T, T>, receipt: Receipt| #[trigger]
            crate::sync::writes(
                handle.shared().state_lock(),
                value,
                WatchableState::<T>::set_if_changed,
                result,
                receipt,
            ) && changed == result is Ok && (changed ==> exists|queued: VecDeque<Waker>| #[trigger]
                handle.shared().task_list().locks_after((), take_tasks, receipt, queued)
                    && crate::sync::woke_all(
                queued@,
            )),
{
    let result = choose|result: Result<T, T>|
        handle.shared().sets_if_changed(value, result) && changed == result is Ok;
    assert(handle.shared().sets_if_changed(value, result));
}

/// Reading a watchable reads its state under the lock: a clone of the value, or what a function
/// makes of it. A new watcher starts from a clone of the state, and leads to the same source.
pub proof fn law_reading_reads_the_state<T: Clone, F: FnOnce(&T) -> R, R>(
    handle: &Watchable<T>,
    value: T,
    f: F,
    result: R,
    watcher: Direct<T>,
    watched: bool,
)
    requires
        call_ensures(Watchable::<T>::get, (handle,), value),
        call_ensures(Watchable::<T>::read::<F, R>, (handle, f), result),
        call_ensures(Watchable::<T>::watch, (handle,), watcher),
        call_ensures(Watchable::<T>::has_watchers, (handle,), watched),
    ensures
        crate::sync::reads(
            handle.shared().state_lock(),
            (),
            WatchableState::<T>::clone_value,
            value,
        ),
        crate::sync::reads(
            handle.shared().state_lock(),
            f,
            WatchableState::<T>::read::<F, R>,
            result,
        ),
        crate::sync::reads(
            handle.shared().state_lock(),
            (),
            clone_of::<WatchableState<T>>,
            watcher.seen(),
        ),
        watcher.link().target() == handle.shared(),
        exists|count: usize| #[trigger]
            crate::sync::counts_weak(handle.shared(), count) && watched == (count > 0),
{
}

/// A new watchable holds the value in the first epoch, and no task waits for it.
pub proof fn law_new_watchable_is_unchanged<T: Clone>(handle: Watchable<T>, value: T)
    requires
        call_ensures(Watchable::<T>::new, (value,), handle),
    ensures
        crate::sync::made_with(
            handle.shared().state_lock(),
            (WatchableState { value, epoch: 1 }),
        ),
        exists|queued: VecDeque<Waker>| #[trigger]
            handle.shared().task_list().made_around(queued) && queued@ == Seq::<Waker>::empty(),
{
    let queued = choose|queued: VecDeque<Waker>| #[trigger]
        handle.shared().task_list().made_around(queued) && queued@.len() == 0;
    assert(queued@ =~= Seq::<Waker>::empty());
}

/// Reading a watchable of the fast kind reads its state under the lock: a clone of the value, or
/// what a function makes of it. A new watcher starts from a clone of the state, and leads to the
/// same source.
pub proof fn law_reading_reads_the_state_fast<T: Clone, F: FnOnce(&T) -> R, R>(
    handle: &WatchableFast<T>,
    value: T,
    f: F,
    result: R,
    watcher: DirectFast<T>,
    watched: bool,
)
    requires
        call_ensures(WatchableFast::<T>::get, (handle,), value),
        call_ensures(WatchableFast::<T>::read::<F, R>, (handle, f), result),
        call_ensures(WatchableFast::<T>::watch, (handle,), watcher),
        call_ensures(WatchableFast::<T>::has_watchers, (handle,), watched),
    ensures
        crate::sync::reads(
            handle.shared().state_lock(),
            (),
            WatchableState::<T>::clone_value,
            value,
        ),
        crate::sync::reads(
            handle.shared().state_lock(),
            f,
            WatchableState::<T>::read::<F, R>,
            result,
        ),
        crate::sync::reads(
            handle.shared().state_lock(),
            (),
            clone_of::<WatchableState<T>>,
            watcher.seen(),
        ),
        watcher.link().target() == handle.shared(),
        exists|count: usize| #[trigger]
            crate::sync::counts_weak(handle.shared(), count) && watched == (count > 0),
{
}

/// A new watchable of the fast kind holds the value in the first epoch, and no task waits for it.
pub proof fn law_new_watchable_is_unchanged_fast<T: Clone>(handle: WatchableFast<T>, value: T)
    requires
        call_ensures(WatchableFast::<T>::new, (value,), handle),
    ensures
        crate::sync::made_with(
            handle.shared().state_lock(),
            (WatchableState { value, epoch: 1 }),
        ),
        exists|queued: VecDeque<Waker>| #[trigger]
            handle.shared().task_list().made_around(queued) && queued@ == Seq::<Waker>::empty(),
{
    let queued = choose|queued: VecDeque<Waker>| #[trigger]
        handle.shared().task_list().made_around(queued) && queued@.len() == 0;
    assert(queued@ =~= Seq::<Waker>::empty());
}

/// Whoever tries to wake all takes the tasks off the list, unless someone else is at it, and wakes
/// each of them.
pub proof fn law_trying_to_wake_wakes_who_was_taken<T>(
    shared: &WatchableShared<T>,
    farewell: &mut Farewell,
)
    requires
        call_ensures(WatchableShared::<T>::wake_all_if_free, (shared, farewell), ()),
    ensures
        exists|taken: Option<VecDeque<Waker>>| #[trigger]
            crate::sync::tries_to_take(shared.task_list(), taken) && (taken matches Some(queued)
                ==> forall|i: int| 0 <= i < queued@.len()
                    ==> crate::sync::woke(#[trigger] queued@[i])),
{
}

/// A poll of what is shared looks, and where there was nothing new, leaves a waker of the task on
/// the list and looks once more after that. It fails exactly if nothing was found.
pub proof fn law_poll_joins_before_it_waits<T: Clone>(
    found: Option<Arc<WatchableShared<T>>>,
    seen: &mut WatchableState<T>,
    cx: &mut std::task::Context<'_>,
    outcome: std::task::Poll<Result<(), crate::error::Disconnected>>,
)
    requires
        call_ensures(crate::shared::poll_found::<T>, (found, seen, cx), outcome),
    ensures
        found is None ==> outcome matches std::task::Poll::Ready(Err(_)),
        found matches Some(shared) ==> {
            ||| {
                &&& outcome matches std::task::Poll::Ready(Ok(_))
                &&& crate::sync::reads(
                    shared.state_lock(),
                    old(seen).epoch,
                    WatchableState::<T>::since,
                    Some(*final(seen)),
                )
            }
            ||| exists|waker: Waker, receipt: Receipt, news: Option<WatchableState<T>>|
                {
                    &&& crate::sync::reads(
                        shared.state_lock(),
                        old(seen).epoch,
                        WatchableState::<T>::since,
                        None,
                    )
                    &&& crate::sync::task_of(*old(cx)).contains(waker)
                    &&& #[trigger] shared.task_list().locks_first(waker, add_task, (), receipt)
                    &&& #[trigger] crate::sync::reads_after(
                        shared.state_lock(),
                        old(seen).epoch,
                        WatchableState::<T>::since,
                        receipt,
                        news,
                    )
                    &&& match news {
                        Some(copy) => outcome matches std::task::Poll::Ready(Ok(_)) && *final(seen)
                            == copy,
                        None => outcome is Pending && *final(seen) == *old(seen),
                    }
                }
        },
{
    if let Some(shared) = found {
        let pre = *seen;
        let post = *final(seen);
        let task = crate::sync::task_of(*cx);
        let progress = crate::watcher::progress(outcome);
        assert(shared.polled(pre, post, task, progress));
        let state = &*shared;
        if !(progress is Changed && state.shows(pre, post, true)) {
            let (waker, receipt) = choose|waker: Waker, receipt: Receipt| #[trigger]
                shared.takes(crate::shared::SharedStep::Join(waker), receipt)
                    && task.contains(waker)
                    && shared.shows_after(pre, post, progress is Changed, receipt);
            let news = choose|news: Option<WatchableState<T>>| #[trigger]
                shared.tells_after(pre.epoch, receipt, news) && (progress is Changed) == (
                news is Some) && post == match news {
                    Some(copy) => copy,
                    None => pre,
                };
            assert(shared.task_list().locks_first(waker, add_task, (), receipt));
            assert(crate::sync::reads_after(
                shared.state_lock(),
                pre.epoch,
                WatchableState::<T>::since,
                receipt,
                news,
            ));
            let none = choose|none: Option<WatchableState<T>>| #[trigger]
                shared.tells(pre.epoch, none) && false == (none is Some) && pre == match none {
                    Some(copy) => copy,
                    None => pre,
                };
            assert(none is None);
        }
    }
}

/// A look at what is shared takes over what the state has to tell since the last one. Where nothing
/// was found, there is nothing to tell.
pub proof fn law_update_takes_over_the_news<T: Clone>(
    found: Option<Arc<WatchableShared<T>>>,
    seen: &mut WatchableState<T>,
    changed: bool,
)
    requires
        call_ensures(crate::shared::update_found::<T>, (found, seen), changed),
    ensures
        found is None ==> !changed && *final(seen) == *old(seen),
        found matches Some(shared) ==> if changed {
            crate::sync::reads(
                shared.state_lock(),
                old(seen).epoch,
                WatchableState::<T>::since,
                Some(*final(seen)),
            )
        } else {
            &&& *final(seen) == *old(seen)
            &&& crate::sync::reads(
                shared.state_lock(),
                old(seen).epoch,
                WatchableState::<T>::since,
                None,
            )
        },
{
}

/// Whether a change is pending is what the state answers to whether it has changed since. Where
/// nothing was found, none is.
pub proof fn law_pending_is_what_the_state_answers<T>(
    found: Option<Arc<WatchableShared<T>>>,
    seen: &WatchableState<T>,
    ahead: bool,
)
    requires
        call_ensures(crate::shared::is_found_ahead::<T>, (found, seen), ahead),
    ensures
        found is None ==> !ahead,
        found matches Some(shared) ==> crate::sync::reads(
            shared.state_lock(),
            seen.epoch,
            WatchableState::<T>::is_after,
            ahead,
        ),
{
}

/// Pushing changes the elements under the lock, and records the change after that.
pub proof fn law_push_is_recorded<T: Clone>(handle: &WatchableVec<T>, value: T)
    requires
        call_ensures(WatchableVec::<T>::push, (handle, value), ()),
    ensures
        exists|receipt: Receipt, aftermath: Aftermath<VecChange<T>>|
            #[trigger] crate::sync::writes(
                handle.data(),
                value,
                push_value::<T>,
                VecChange::Push { value },
                receipt,
            )
                && #[trigger] handle.log().locks_after(
                VecChange::Push { value },
                ChangeLog::<VecChange<T>>::record,
                receipt,
                aftermath,
            ) && crate::sync::woke_all(aftermath.woken@),
{
}

/// Popping changes the elements under the lock, and records the change after that if there was one.
pub proof fn law_pop_is_recorded<T: Clone>(handle: &WatchableVec<T>, value: Option<T>)
    requires
        call_ensures(WatchableVec::<T>::pop, (handle,), value),
    ensures
        exists|made: Option<VecChange<T>>, receipt: Receipt| #[trigger]
            crate::sync::writes(handle.data(), (), pop_value::<T>, (value, made), receipt)
                && (made matches Some(change)
                    ==> exists|aftermath: Aftermath<VecChange<T>>| #[trigger]
                handle.log().locks_after(
                change,
                ChangeLog::<VecChange<T>>::record,
                receipt,
                aftermath,
            ) && crate::sync::woke_all(aftermath.woken@)),
{
}

/// Removing changes the elements under the lock, and records the change after that if there was
/// one.
pub proof fn law_remove_is_recorded<T: Clone>(
    handle: &WatchableVec<T>,
    index: usize,
    value: Option<T>,
)
    requires
        call_ensures(WatchableVec::<T>::remove, (handle, index), value),
    ensures
        exists|made: Option<VecChange<T>>, receipt: Receipt| #[trigger]
            crate::sync::writes(handle.data(), index, remove_value::<T>, (value, made), receipt)
                && (made matches Some(change)
                    ==> exists|aftermath: Aftermath<VecChange<T>>| #[trigger]
                handle.log().locks_after(
                change,
                ChangeLog::<VecChange<T>>::record,
                receipt,
                aftermath,
            ) && crate::sync::woke_all(aftermath.woken@)),
{
}

/// Inserting changes the elements under the lock, and records the change after that. Where there
/// was no place, the value is handed back and nothing is recorded.
pub proof fn law_insert_is_recorded<T: Clone>(
    handle: &WatchableVec<T>,
    index: usize,
    value: T,
    result: Result<(), T>,
)
    requires
        call_ensures(WatchableVec::<T>::insert, (handle, index, value), result),
    ensures
        exists|made: Result<VecChange<T>, T>, receipt: Receipt| #[trigger]
            crate::sync::writes(handle.data(), (index, value), insert_value::<T>, made, receipt)
                && match made {
                Ok(change) => result is Ok && exists|aftermath: Aftermath<VecChange<T>>| #[trigger]
                    handle.log().locks_after(
                        change,
                        ChangeLog::<VecChange<T>>::record,
                        receipt,
                        aftermath,
                    ) && crate::sync::woke_all(aftermath.woken@),
                Err(refused) => result == Err::<(), T>(refused),
            },
{
    let (made, receipt) = choose|made: Result<VecChange<T>, T>, receipt: Receipt| #[trigger]
        crate::sync::writes(handle.data(), (index, value), insert_value::<T>, made, receipt)
            && handle.records(crate::vec::accepted(made), receipt)
                && crate::vec::handed_back(result)
            == crate::vec::handed_back(made);
    assert(crate::sync::writes(handle.data(), (index, value), insert_value::<T>, made, receipt));
    if let Ok(change) = made {
        assert(crate::vec::handed_back(made) is None);
    } else {
        assert(crate::vec::handed_back(made) is Some);
    }
}

/// Setting an element changes the elements under the lock, and records the change after that.
/// Where there was no place, the value is handed back and nothing is recorded.
pub proof fn law_set_is_recorded<T: Clone>(
    handle: &WatchableVec<T>,
    index: usize,
    value: T,
    result: Result<(), T>,
)
    requires
        call_ensures(WatchableVec::<T>::set, (handle, index, value), result),
    ensures
        exists|made: Result<VecChange<T>, T>, receipt: Receipt| #[trigger]
            crate::sync::writes(handle.data(), (index, value), replace_element::<T>, made, receipt)
                && match made {
                Ok(change) => result is Ok && exists|aftermath: Aftermath<VecChange<T>>| #[trigger]
                    handle.log().locks_after(
                        change,
                        ChangeLog::<VecChange<T>>::record,
                        receipt,
                        aftermath,
                    ) && crate::sync::woke_all(aftermath.woken@),
                Err(refused) => result == Err::<(), T>(refused),
            },
{
    let (made, receipt) = choose|made: Result<VecChange<T>, T>, receipt: Receipt| #[trigger]
        crate::sync::writes(handle.data(), (index, value), replace_element::<T>, made, receipt)
            && handle.records(crate::vec::accepted(made), receipt)
                && crate::vec::handed_back(result)
            == crate::vec::handed_back(made);
    assert(crate::sync::writes(handle.data(), (index, value), replace_element::<T>, made, receipt));
    if let Ok(change) = made {
        assert(crate::vec::handed_back(made) is None);
    } else {
        assert(crate::vec::handed_back(made) is Some);
    }
}

/// Clearing empties the vec under the lock, and restarts the log with that change if there was one.
pub proof fn law_clear_is_recorded<T: Clone>(handle: &WatchableVec<T>)
    requires
        call_ensures(WatchableVec::<T>::clear, (handle,), ()),
    ensures
        exists|made: Option<VecChange<T>>, receipt: Receipt| #[trigger]
            crate::sync::writes(handle.data(), (), clear_values::<T>, made, receipt)
                && (made matches Some(change)
                    ==> exists|aftermath: (Vec<VecChange<T>>, Aftermath<VecChange<T>>)| #[trigger]
                handle.log().locks_after(
                change,
                ChangeLog::<VecChange<T>>::restart,
                receipt,
                aftermath,
            ) && crate::sync::woke_all(aftermath.1.woken@)),
{
}

/// Inserting changes the entries under the lock, and records the change after that.
pub proof fn law_map_insert_is_recorded<K: Eq + Hash + Clone, V: Clone>(
    handle: &WatchableMap<K, V>,
    key: K,
    value: V,
    before: Option<V>,
)
    requires
        call_ensures(WatchableMap::<K, V>::insert, (handle, key, value), before),
    ensures
        exists|receipt: Receipt, aftermath: Aftermath<MapChange<K, V>>|
            #[trigger] crate::sync::writes(
                handle.data(),
                (key, value),
                insert_entry::<K, V>,
                (before, MapChange::Insert { key, value }),
                receipt,
            )
                && #[trigger] handle.log().locks_after(
                MapChange::Insert { key, value },
                ChangeLog::<MapChange<K, V>>::record,
                receipt,
                aftermath,
            ) && crate::sync::woke_all(aftermath.woken@),
{
}

/// Removing changes the entries under the lock, and records the change after that if there was one.
pub proof fn law_map_remove_is_recorded<K: Eq + Hash + Clone, V: Clone>(
    handle: &WatchableMap<K, V>,
    key: &K,
    value: Option<V>,
)
    requires
        call_ensures(WatchableMap::<K, V>::remove, (handle, key), value),
    ensures
        exists|made: Option<MapChange<K, V>>, receipt: Receipt| #[trigger]
            crate::sync::writes(handle.data(), key, remove_entry::<K, V>, (value, made), receipt)
                && (made matches Some(change)
                    ==> exists|aftermath: Aftermath<MapChange<K, V>>| #[trigger]
                handle.log().locks_after(
                change,
                ChangeLog::<MapChange<K, V>>::record,
                receipt,
                aftermath,
            ) && crate::sync::woke_all(aftermath.woken@)),
{
}

/// Clearing empties the map under the lock, and restarts the log with that change if there was one.
pub proof fn law_map_clear_is_recorded<K: Eq + Hash + Clone, V: Clone>(handle: &WatchableMap<K, V>)
    requires
        call_ensures(WatchableMap::<K, V>::clear, (handle,), ()),
    ensures
        exists|made: Option<MapChange<K, V>>, receipt: Receipt| #[trigger]
            crate::sync::writes(handle.data(), (), clear_entries::<K, V>, made, receipt)
                && (made matches Some(change)
                    ==> exists|aftermath: (Vec<MapChange<K, V>>, Aftermath<MapChange<K, V>>)| #[trigger]
                handle.log().locks_after(
                change,
                ChangeLog::<MapChange<K, V>>::restart,
                receipt,
                aftermath,
            ) && crate::sync::woke_all(aftermath.1.woken@)),
{
}

/// Setting a value with history stores it under the lock, and records the change after that.
pub proof fn law_history_set_is_recorded<T: Clone>(handle: &WatchableWithHistory<T>, value: T)
    requires
        call_ensures(WatchableWithHistory::<T>::set, (handle, value), ()),
    ensures
        exists|change: ValueChange<T>, receipt: Receipt, aftermath: Aftermath<ValueChange<T>>|
            #[trigger] crate::sync::writes(
                handle.data(),
                value,
                replace_value::<T>,
                change,
                receipt,
            )
                && #[trigger] handle.log().locks_after(
                change,
                ChangeLog::<ValueChange<T>>::record,
                receipt,
                aftermath,
            ) && crate::sync::woke_all(aftermath.woken@),
{
}

/// Modifying a value with history changes it under the lock, and records the change after that.
pub proof fn law_history_modify_is_recorded<T: Clone, F: FnOnce(&mut T) -> R, R>(
    handle: &WatchableWithHistory<T>,
    f: F,
    result: R,
)
    requires
        call_ensures(WatchableWithHistory::<T>::modify::<F, R>, (handle, f), result),
    ensures
        exists|change: ValueChange<T>, receipt: Receipt, aftermath: Aftermath<ValueChange<T>>|
            #[trigger] crate::sync::writes(
                handle.data(),
                f,
                modify_value::<T, F, R>,
                (result, change),
                receipt,
            )
                && #[trigger] handle.log().locks_after(
                change,
                ChangeLog::<ValueChange<T>>::record,
                receipt,
                aftermath,
            ) && crate::sync::woke_all(aftermath.woken@),
{
}

/// Reading a vec reads the elements under the lock. A new watcher starts from the epoch of the log.
pub proof fn law_reading_reads_the_elements<T: Clone>(
    handle: &WatchableVec<T>,
    index: usize,
    value: Option<T>,
    len: usize,
    empty: bool,
    elements: Vec<T>,
    watcher: ChangeWatcher<VecChange<T>>,
)
    requires
        call_ensures(WatchableVec::<T>::get, (handle, index), value),
        call_ensures(WatchableVec::<T>::len, (handle,), len),
        call_ensures(WatchableVec::<T>::is_empty, (handle,), empty),
        call_ensures(WatchableVec::<T>::snapshot, (handle,), elements),
        call_ensures(WatchableVec::<T>::watch_changes, (handle,), watcher),
    ensures
        crate::sync::reads(handle.data(), index, get_cloned::<T>, value),
        crate::sync::reads(handle.data(), (), count_elements::<T>, len),
        crate::sync::reads(handle.data(), (), lacks_elements::<T>, empty),
        crate::sync::reads(handle.data(), (), clone_of::<Vec<T>>, elements),
        handle.log().locks(
            (),
            crate::log::lent_epoch::<VecChange<T>>,
            watcher.last_epoch(),
        ),
        watcher.link().target() == handle.log(),
{
}

/// Reading a map reads the entries under the lock. A new watcher starts from the epoch of the log.
pub proof fn law_reading_reads_the_entries<K: Eq + Hash + Clone, V: Clone>(
    handle: &WatchableMap<K, V>,
    key: &K,
    value: Option<V>,
    present: bool,
    len: usize,
    empty: bool,
    entries: HashMap<K, V>,
    watcher: ChangeWatcher<MapChange<K, V>>,
)
    requires
        call_ensures(WatchableMap::<K, V>::get, (handle, key), value),
        call_ensures(WatchableMap::<K, V>::contains_key, (handle, key), present),
        call_ensures(WatchableMap::<K, V>::len, (handle,), len),
        call_ensures(WatchableMap::<K, V>::is_empty, (handle,), empty),
        call_ensures(WatchableMap::<K, V>::snapshot, (handle,), entries),
        call_ensures(WatchableMap::<K, V>::watch_changes, (handle,), watcher),
    ensures
        crate::sync::reads(handle.data(), key, get_entry::<K, V>, value),
        crate::sync::reads(handle.data(), key, has_entry::<K, V>, present),
        crate::sync::reads(handle.data(), (), count_entries::<K, V>, len),
        crate::sync::reads(handle.data(), (), lacks_entries::<K, V>, empty),
        crate::sync::reads(handle.data(), (), clone_of::<HashMap<K, V>>, entries),
        handle.log().locks(
            (),
            crate::log::lent_epoch::<MapChange<K, V>>,
            watcher.last_epoch(),
        ),
        watcher.link().target() == handle.log(),
{
}

/// Reading a value with history reads it under the lock. A new watcher starts from the epoch of the
/// log.
pub proof fn law_reading_reads_the_value<T: Clone, F: FnOnce(&T) -> R, R>(
    handle: &WatchableWithHistory<T>,
    value: T,
    f: F,
    result: R,
    watcher: ChangeWatcher<ValueChange<T>>,
)
    requires
        call_ensures(WatchableWithHistory::<T>::get, (handle,), value),
        call_ensures(WatchableWithHistory::<T>::read::<F, R>, (handle, f), result),
        call_ensures(WatchableWithHistory::<T>::watch_changes, (handle,), watcher),
    ensures
        crate::sync::reads(handle.data(), (), clone_of::<T>, value),
        crate::sync::reads(handle.data(), f, run_on::<T, R, F>, result),
        handle.log().locks(
            (),
            crate::log::lent_epoch::<ValueChange<T>>,
            watcher.last_epoch(),
        ),
        watcher.link().target() == handle.log(),
{
}

/// New collections are empty, in the first epoch, with nobody waiting and room for as many changes
/// as were asked for.
pub proof fn law_new_collections_are_empty<T: Clone, K: Eq + Hash + Clone, V: Clone>(
    elements: WatchableVec<T>,
    entries: WatchableMap<K, V>,
    buffer_size: usize,
)
    requires
        call_ensures(WatchableVec::<T>::with_capacity, (buffer_size,), elements),
        call_ensures(WatchableMap::<K, V>::with_capacity, (buffer_size,), entries),
    ensures
        elements.log().limit() == buffer_size,
        exists|content: Vec<T>| #[trigger]
            crate::sync::made_with(elements.data(), content) && content@.len() == 0,
        exists|log: ChangeLog<VecChange<T>>| #[trigger]
            elements.log().made_around(log) && log@.changes.len() == 0 && log@.capacity
                == buffer_size && log@.epoch == 1 && log@.watchers.len() == 0,
        entries.log().limit() == buffer_size,
        exists|content: HashMap<K, V>| #[trigger]
            crate::sync::made_with(entries.data(), content) && content@ == Map::<K, V>::empty(),
        exists|log: ChangeLog<MapChange<K, V>>| #[trigger]
            entries.log().made_around(log) && log@.changes.len() == 0 && log@.capacity
                == buffer_size && log@.epoch == 1 && log@.watchers.len() == 0,
{
}

/// Pushing changes the elements under the lock, and notes the change after that.
pub proof fn law_lite_push_is_noted<T>(handle: &WatchableVecLite<T>, value: T)
    requires
        call_ensures(WatchableVecLite::<T>::push, (handle, value), ()),
    ensures
        exists|receipt: Receipt, woken: VecDeque<Waker>|
            #[trigger] crate::sync::writes(handle.data(), value, put_last::<T>, (), receipt)
                && #[trigger] handle.notifier().locks_after((), note_change, receipt, woken)
                && crate::sync::woke_all(woken@),
{
}

/// Popping changes the elements under the lock, and notes the change after that if there was one.
pub proof fn law_lite_pop_is_noted<T>(handle: &WatchableVecLite<T>, value: Option<T>)
    requires
        call_ensures(WatchableVecLite::<T>::pop, (handle,), value),
    ensures
        exists|receipt: Receipt| #[trigger]
            crate::sync::writes(handle.data(), (), take_last::<T>, value, receipt)
                && (value is Some ==> exists|woken: VecDeque<Waker>| #[trigger]
                handle.notifier().locks_after((), note_change, receipt, woken)
                    && crate::sync::woke_all(woken@)),
{
}

/// Inserting changes the elements under the lock, and notes the change after that if there was one.
pub proof fn law_lite_insert_is_noted<T>(
    handle: &WatchableVecLite<T>,
    index: usize,
    value: T,
    result: Result<(), T>,
)
    requires
        call_ensures(WatchableVecLite::<T>::insert, (handle, index, value), result),
    ensures
        exists|receipt: Receipt| #[trigger]
            crate::sync::writes(handle.data(), (index, value), put_in::<T>, result, receipt)
                && (result is Ok ==> exists|woken: VecDeque<Waker>| #[trigger]
                handle.notifier().locks_after((), note_change, receipt, woken)
                    && crate::sync::woke_all(woken@)),
{
}

/// Removing changes the elements under the lock, and notes the change after that if there was one.
pub proof fn law_lite_remove_is_noted<T>(
    handle: &WatchableVecLite<T>,
    index: usize,
    value: Option<T>,
)
    requires
        call_ensures(WatchableVecLite::<T>::remove, (handle, index), value),
    ensures
        exists|receipt: Receipt| #[trigger]
            crate::sync::writes(handle.data(), index, take_out::<T>, value, receipt)
                && (value is Some ==> exists|woken: VecDeque<Waker>| #[trigger]
                handle.notifier().locks_after((), note_change, receipt, woken)
                    && crate::sync::woke_all(woken@)),
{
}

/// Setting an element changes the elements under the lock, and notes the change after that if there
/// was one.
pub proof fn law_lite_set_is_noted<T>(
    handle: &WatchableVecLite<T>,
    index: usize,
    value: T,
    result: Result<(), T>,
)
    requires
        call_ensures(WatchableVecLite::<T>::set, (handle, index, value), result),
    ensures
        exists|receipt: Receipt| #[trigger]
            crate::sync::writes(handle.data(), (index, value), put_at::<T>, result, receipt)
                && (result is Ok ==> exists|woken: VecDeque<Waker>| #[trigger]
                handle.notifier().locks_after((), note_change, receipt, woken)
                    && crate::sync::woke_all(woken@)),
{
}

/// Clearing empties the vec under the lock, and notes the change after that if there was one.
pub proof fn law_lite_clear_is_noted<T>(handle: &WatchableVecLite<T>)
    requires
        call_ensures(WatchableVecLite::<T>::clear, (handle,), ()),
    ensures
        exists|changed: bool, receipt: Receipt| #[trigger]
            crate::sync::writes(
                handle.data(),
                (),
                crate::lite_vec::empty_out::<T>,
                changed,
                receipt,
            )
                && (changed ==> exists|woken: VecDeque<Waker>| #[trigger]
                handle.notifier().locks_after((), note_change, receipt, woken)
                    && crate::sync::woke_all(woken@)),
{
}

/// Inserting changes the entries under the lock, and notes the change after that.
pub proof fn law_lite_map_insert_is_noted<K: Eq + Hash, V>(
    handle: &WatchableMapLite<K, V>,
    key: K,
    value: V,
    before: Option<V>,
)
    requires
        call_ensures(WatchableMapLite::<K, V>::insert, (handle, key, value), before),
    ensures
        exists|receipt: Receipt, woken: VecDeque<Waker>|
            #[trigger] crate::sync::writes(
                handle.data(),
                (key, value),
                store_entry::<K, V>,
                before,
                receipt,
            )
                && #[trigger] handle.notifier().locks_after((), note_change, receipt, woken)
                && crate::sync::woke_all(woken@),
{
}

/// Removing changes the entries under the lock, and notes the change after that if there was one.
pub proof fn law_lite_map_remove_is_noted<K: Eq + Hash, V>(
    handle: &WatchableMapLite<K, V>,
    key: &K,
    value: Option<V>,
)
    requires
        call_ensures(WatchableMapLite::<K, V>::remove, (handle, key), value),
    ensures
        exists|receipt: Receipt| #[trigger]
            crate::sync::writes(handle.data(), key, take_entry::<K, V>, value, receipt)
                && (value is Some ==> exists|woken: VecDeque<Waker>| #[trigger]
                handle.notifier().locks_after((), note_change, receipt, woken)
                    && crate::sync::woke_all(woken@)),
{
}

/// Clearing empties the map under the lock, and notes the change after that if there was one.
pub proof fn law_lite_map_clear_is_noted<K: Eq + Hash, V>(handle: &WatchableMapLite<K, V>)
    requires
        call_ensures(WatchableMapLite::<K, V>::clear, (handle,), ()),
    ensures
        exists|changed: bool, receipt: Receipt| #[trigger]
            crate::sync::writes(
                handle.data(),
                (),
                crate::lite_map::empty_out::<K, V>,
                changed,
                receipt,
            )
                && (changed ==> exists|woken: VecDeque<Waker>| #[trigger]
                handle.notifier().locks_after((), note_change, receipt, woken)
                    && crate::sync::woke_all(woken@)),
{
}

/// Reading a vec or a map that only tells that it changed reads the content under the lock. A new
/// watcher starts from the epoch of the notifier.
pub proof fn law_lite_reading_reads_the_content<T: Clone, K: Eq + Hash, V: Clone>(
    elements: &WatchableVecLite<T>,
    index: usize,
    element: Option<T>,
    count: usize,
    bare: bool,
    elements_watcher: EpochWatcher,
    entries: &WatchableMapLite<K, V>,
    key: &K,
    value: Option<V>,
    present: bool,
    len: usize,
    empty: bool,
    entries_watcher: EpochWatcher,
)
    requires
        call_ensures(WatchableVecLite::<T>::get, (elements, index), element),
        call_ensures(WatchableVecLite::<T>::len, (elements,), count),
        call_ensures(WatchableVecLite::<T>::is_empty, (elements,), bare),
        call_ensures(WatchableVecLite::<T>::watch, (elements,), elements_watcher),
        call_ensures(WatchableMapLite::<K, V>::get, (entries, key), value),
        call_ensures(WatchableMapLite::<K, V>::contains_key, (entries, key), present),
        call_ensures(WatchableMapLite::<K, V>::len, (entries,), len),
        call_ensures(WatchableMapLite::<K, V>::is_empty, (entries,), empty),
        call_ensures(WatchableMapLite::<K, V>::watch, (entries,), entries_watcher),
    ensures
        crate::sync::reads(elements.data(), index, get_cloned::<T>, element),
        crate::sync::reads(elements.data(), (), count_elements::<T>, count),
        crate::sync::reads(elements.data(), (), lacks_elements::<T>, bare),
        elements.notifier().locks(
            (),
            crate::notifier::lent_epoch,
            elements_watcher.last_epoch(),
        ),
        elements_watcher.link().target() == elements.notifier(),
        crate::sync::reads(entries.data(), key, get_entry::<K, V>, value),
        crate::sync::reads(entries.data(), key, has_entry::<K, V>, present),
        crate::sync::reads(entries.data(), (), count_entries::<K, V>, len),
        crate::sync::reads(entries.data(), (), lacks_entries::<K, V>, empty),
        entries.notifier().locks((), crate::notifier::lent_epoch, entries_watcher.last_epoch()),
        entries_watcher.link().target() == entries.notifier(),
{
}

/// Setting a light watchable stores the value under the lock, and counts the change after that.
/// Modifying one runs the function there instead.
pub proof fn law_lite_changes_are_counted<T: Clone, F: FnOnce(&mut T) -> R, R>(
    handle: &WatchableLite<T>,
    value: T,
    f: F,
    result: R,
)
    requires
        call_ensures(WatchableLite::<T>::set, (handle, value), ()),
        call_ensures(WatchableLite::<T>::modify::<F, R>, (handle, f), result),
    ensures
        exists|receipt: Receipt| #[trigger]
            crate::sync::writes(*handle.shared().0, value, replace_with::<T>, (), receipt)
                && crate::epoch::counts_after(*handle.shared().1, receipt),
        exists|receipt: Receipt| #[trigger]
            crate::sync::writes(*handle.shared().0, f, run_on_mut::<T, R, F>, result, receipt)
                && crate::epoch::counts_after(*handle.shared().1, receipt),
{
    let receipt = choose|receipt: Receipt| #[trigger]
        handle.takes(crate::lite::CountedStep::Store(value), receipt) && handle.takes(
            crate::lite::CountedStep::Count,
            receipt,
        );
    assert(crate::sync::writes(*handle.shared().0, value, replace_with::<T>, (), receipt));
}

/// Setting an atomic watchable stores the value in its cell, and counts the change after that.
/// Getting its value loads it from there.
pub proof fn law_atomic_changes_are_counted<T: Copy>(
    handle: &WatchableAtomic<T>,
    value: T,
    loaded: T,
)
    requires
        call_ensures(WatchableAtomic::<T>::set, (handle, value), ()),
        call_ensures(WatchableAtomic::<T>::get, (handle,), loaded),
    ensures
        exists|receipt: Stored| #[trigger]
            crate::atomic::stores(*handle.shared().0, value, receipt)
                && crate::epoch::counts_after(*handle.shared().1, receipt),
        crate::atomic::loads(*handle.shared().0, loaded),
{
    let receipt = choose|receipt: Stored| #[trigger]
        handle.takes(crate::lite::CountedStep::Store(value), receipt) && handle.takes(
            crate::lite::CountedStep::Count,
            receipt,
        );
    assert(crate::atomic::stores(*handle.shared().0, value, receipt));
}

/// A poll for changes collects from the log that it finds, since the epoch that the watcher had
/// caught up with. Where there was something to tell, the watcher has caught up with the epoch of
/// the log; where there was not, it stays where it was, as it does if the log is gone.
pub proof fn law_poll_collects_from_the_log<C>(
    watcher: &mut ChangeWatcher<C>,
    news: Option<(Vec<C>, bool)>,
)
    requires
        call_ensures(ChangeWatcher::<C>::poll_changes, (watcher,), news),
    ensures
        final(watcher).link() == old(watcher).link(),
        news is None ==> final(watcher).last_epoch() == old(watcher).last_epoch(),
        exists|found: Option<Arc<Guarded<ChangeLog<C>>>>| #[trigger]
            old(watcher).link().gives(found) && match found {
                None => news is None,
                Some(log) => exists|collected: Collected<C>| #[trigger]
                    log.locks(old(watcher).last_epoch(), ChangeLog::<C>::collect, collected) && (
                    match news {
                        Some((changes, missed)) => {
                            &&& changes == collected.changes
                            &&& missed == collected.missed
                            &&& final(watcher).last_epoch() == collected.epoch
                        },
                        None => collected.changes@.len() == 0 && !collected.missed,
                    }),
            },
{
    let found = choose|found: Option<Arc<Guarded<ChangeLog<C>>>>| #[trigger]
        watcher.finds(found) && ChangeWatcher::looks_found(*watcher, found, *final(watcher), news);
    assert(watcher.link().gives(found));
    if let Some(log) = found {
        let collected = choose|collected: Collected<C>| #[trigger]
            crate::log::gives_out(*log, watcher.last_epoch(), collected) && ChangeWatcher::takes_in(
                *watcher,
                collected,
                *final(watcher),
                news,
            );
        assert(log.locks(watcher.last_epoch(), ChangeLog::<C>::collect, collected));
    }
}

/// A watcher that is reset takes over the epoch of its source, and stays where it is if the source
/// is gone.
pub proof fn law_reset_takes_over_the_epoch<C>(
    changes: &mut ChangeWatcher<C>,
    epochs: &mut EpochWatcher,
)
    requires
        call_ensures(ChangeWatcher::<C>::reset, (changes,), ()),
        call_ensures(EpochWatcher::reset, (epochs,), ()),
    ensures
        final(changes).link() == old(changes).link(),
        exists|found: Option<Arc<Guarded<ChangeLog<C>>>>| #[trigger]
            old(changes).link().gives(found) && match found {
                Some(log) => log.locks(
                    (),
                    crate::log::lent_epoch::<C>,
                    final(changes).last_epoch(),
                ),
                None => final(changes).last_epoch() == old(changes).last_epoch(),
            },
        final(epochs).link() == old(epochs).link(),
        exists|found: Option<Arc<Guarded<Notifier>>>| #[trigger]
            old(epochs).link().gives(found) && match found {
                Some(notifier) => notifier.locks(
                    (),
                    crate::notifier::lent_epoch,
                    final(epochs).last_epoch(),
                ),
                None => final(epochs).last_epoch() == old(epochs).last_epoch(),
            },
{
    let found = choose|found: Option<Arc<Guarded<ChangeLog<C>>>>| #[trigger]
        changes.finds(found) && ChangeWatcher::resets_to(*changes, found, *final(changes));
    assert(changes.link().gives(found));
    let found = choose|found: Option<Arc<Guarded<Notifier>>>| #[trigger]
        epochs.finds(found) && EpochWatcher::resets_to(*epochs, found, *final(epochs));
    assert(epochs.link().gives(found));
}

/// A look at the epoch of a source tells of a change exactly if it is greater than the one that the
/// watcher had caught up with, which it takes over then. It tells that the source is gone exactly
/// if it found none.
pub proof fn law_epoch_poll_goes_by_the_epoch(watcher: &mut EpochWatcher, outcome: Option<bool>)
    requires
        call_ensures(EpochWatcher::poll_changed, (watcher,), outcome),
    ensures
        final(watcher).link() == old(watcher).link(),
        exists|found: Option<Arc<Guarded<Notifier>>>| #[trigger]
            old(watcher).link().gives(found) && match found {
                None => outcome is None && final(watcher).last_epoch() == old(
                    watcher,
                ).last_epoch(),
                Some(notifier) => exists|current: u64| #[trigger]
                    notifier.locks((), crate::notifier::lent_epoch, current) && if current > old(
                        watcher,
                    ).last_epoch() {
                        outcome == Some(true) && final(watcher).last_epoch() == current
                    } else {
                        outcome == Some(false) && final(watcher).last_epoch() == old(
                            watcher,
                        ).last_epoch()
                    },
            },
{
    let found = choose|found: Option<Arc<Guarded<Notifier>>>| #[trigger]
        watcher.finds(found) && EpochWatcher::looks_found(
            *watcher,
            found,
            *final(watcher),
            outcome,
        );
    assert(watcher.link().gives(found));
    if let Some(notifier) = found {
        let current = choose|current: u64| #[trigger]
            crate::notifier::shows_epoch(*notifier, current) && crate::epoch::looks_at_epoch(
                watcher.last_epoch(),
                Some(current),
                final(watcher).last_epoch(),
                outcome == Some(true),
            );
        assert(notifier.locks((), crate::notifier::lent_epoch, current));
    }
}

/// A watcher is connected exactly if it finds its source, and has a pending change exactly if the
/// epoch of the source is greater than the one that it had caught up with.
pub proof fn law_epoch_watcher_answers_by_its_source<C>(
    changes: &ChangeWatcher<C>,
    connected: bool,
    epochs: &EpochWatcher,
    attached: bool,
    changed: bool,
)
    requires
        call_ensures(ChangeWatcher::<C>::is_connected, (changes,), connected),
        call_ensures(EpochWatcher::is_connected, (epochs,), attached),
        call_ensures(EpochWatcher::has_changed, (epochs,), changed),
    ensures
        exists|found: Option<Arc<Guarded<ChangeLog<C>>>>| #[trigger]
            changes.link().gives(found) && connected == found is Some,
        exists|found: Option<Arc<Guarded<Notifier>>>| #[trigger]
            epochs.link().gives(found) && attached == found is Some,
        exists|found: Option<Arc<Guarded<Notifier>>>| #[trigger]
            epochs.link().gives(found) && match found {
                Some(notifier) => exists|current: u64| #[trigger]
                    notifier.locks((), crate::notifier::lent_epoch, current) && changed == (current
                        > epochs.last_epoch()),
                None => !changed,
            },
{
    let found = choose|found: Option<Arc<Guarded<ChangeLog<C>>>>| #[trigger]
        changes.finds(found) && connected == found is Some;
    assert(changes.link().gives(found));
    let found = choose|found: Option<Arc<Guarded<Notifier>>>| #[trigger]
        epochs.finds(found) && attached == found is Some;
    assert(epochs.link().gives(found));
    let found = choose|found: Option<Arc<Guarded<Notifier>>>| #[trigger]
        epochs.finds(found) && epochs.answers_found(found, changed);
    assert(epochs.link().gives(found));
    if let Some(notifier) = found {
        let current = choose|current: u64| #[trigger]
            crate::notifier::shows_epoch(*notifier, current) && changed == (current
                > epochs.last_epoch());
        assert(notifier.locks((), crate::notifier::lent_epoch, current));
    }
}

} // verus!
