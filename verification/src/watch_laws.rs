//! What each operation of a watcher comes to, call by call, and what the futures and streams make
//! of polling.
use std::sync::Arc;
use std::task::{Context, Poll, Waker};

use crossbeam::atomic::AtomicCell;
use parking_lot::RwLock;
use vstd::prelude::*;

use crate::atomic::DirectAtomic;
use crate::change::{MapChange, ValueChange, VecChange};
use crate::change_watcher::{ChangeStream, ChangeWatcher, NextChangesFut};
use crate::epoch::{bump, Counter, Glance};
use crate::epoch_watcher::{EpochChangedFut, EpochWatcher};
use crate::error::Disconnected;
use crate::history_value::WatchableWithHistory;
use crate::lite::DirectLite;
use crate::log::{ChangeLog, Collected};
use crate::map::WatchableMap;
use crate::notifier::Notifier;
use crate::shared::WatchableShared;
use crate::state::WatchableState;
use crate::sync::{add_task, clone_of, Guarded, Receipt, WeakRef};
use crate::value::Direct;
use crate::vec::WatchableVec;
use crate::watcher::{InitializedFut, Progress, UpdatedFut, WatchStream, Watcher};

verus! {

/// The outcome of a poll tells the progress that the watcher made.
pub proof fn law_outcome_tells_the_progress<W: Watcher>(
    watcher: &mut W,
    cx: &mut Context<'_>,
    outcome: Poll<Result<(), Disconnected>>,
)
    requires
        call_ensures(W::poll_updated, (watcher, cx), outcome),
    ensures
        W::polls(
            *old(watcher),
            *final(watcher),
            crate::sync::task_of(*old(cx)),
            match outcome {
                Poll::Ready(Ok(_)) => Progress::Changed,
                Poll::Ready(Err(_)) => Progress::Gone,
                Poll::Pending => Progress::Waiting,
            },
        ),
{
}

/// A future that waits for a change polls its watcher once. It comes to a clone of the new value if
/// there was a change, fails if the watchable is gone, and waits if not.
pub proof fn law_future_polls_its_watcher<W: Watcher>(
    future: &mut UpdatedFut<'_, W>,
    cx: &mut Context<'_>,
    outcome: Poll<Result<W::Value, Disconnected>>,
) where W::Value: Clone
    requires
        call_ensures(UpdatedFut::<W>::poll_next, (future, cx), outcome),
    ensures
        W::polls(
            *old(future).watcher,
            *final(future).watcher,
            crate::sync::task_of(*old(cx)),
            match outcome {
                Poll::Ready(Ok(_)) => Progress::Changed,
                Poll::Ready(Err(_)) => Progress::Gone,
                Poll::Pending => Progress::Waiting,
            },
        ),
        outcome matches Poll::Ready(Ok(value)) ==> cloned(final(future).watcher.cached(), value),
{
}

/// A future that waits for a value to be there hands out the one that was there from the start. If
/// there was none, it polls its watcher past every change that leaves the value missing, and comes
/// to a clone of the first one that is there.
pub proof fn law_future_waits_for_a_value<T: Clone, W: Watcher<Value = Option<T>>>(
    future: &mut InitializedFut<'_, T, W>,
    cx: &mut Context<'_>,
    outcome: Poll<Result<T, Disconnected>>,
)
    requires
        call_ensures(InitializedFut::<T, W>::poll_next, (future, cx), outcome),
    ensures
        final(future).initial is None,
        old(future).initial matches Some(value) ==> outcome == Poll::<
            Result<T, Disconnected>,
        >::Ready(Ok(value)) && *final(future).watcher == *old(future).watcher,
        old(future).initial is None ==> {
            &&& outcome matches Poll::Ready(Ok(value))
                ==> final(future).watcher.cached() matches Some(
                latest,
            ) && cloned(latest, value)
            &&& exists|before: W, progress: Progress| #[trigger]
                W::polls(
                    before,
                    *final(future).watcher,
                    crate::sync::task_of(*old(cx)),
                    progress,
                ) && (before == *old(future).watcher || before.cached() is None) && match outcome {
                    Poll::Ready(Ok(_)) => progress is Changed,
                    Poll::Ready(Err(_)) => progress is Gone,
                    Poll::Pending => progress is Waiting,
                }
        },
{
    if future.initial is None {
        let pre = *future.watcher;
        let post = *final(future).watcher;
        let task = crate::sync::task_of(*cx);
        let (steps, before) = choose|steps: nat, before: W|
            {
                &&& #[trigger] crate::watcher::stays_missing::<T, W>(pre, before, task, steps)
                &&& W::polls(before, post, task, crate::watcher::progress(outcome))
                &&& outcome matches Poll::Ready(Ok(value)) ==> post.cached() matches Some(latest)
                    && cloned(latest, value)
            };
        assert(W::polls(before, post, task, crate::watcher::progress(outcome)));
        if steps > 0 {
            law_missing_values_are_skipped_one_by_one::<T, W>(
                pre,
                before,
                task,
                (steps - 1) as nat,
            );
        }
    }
}

/// What is skipped while a value is missing are changes that a poll reported, one by one, each of
/// which left it missing.
pub proof fn law_missing_values_are_skipped_one_by_one<T: Clone, W: Watcher<Value = Option<T>>>(
    pre: W,
    post: W,
    task: Set<Waker>,
    steps: nat,
)
    requires
        crate::watcher::stays_missing::<T, W>(pre, post, task, steps + 1),
    ensures
        post.cached() is None,
        exists|before: W|
            #[trigger] W::polls(before, post, task, Progress::Changed) && if steps == 0 {
                before == pre
            } else {
                crate::watcher::stays_missing::<T, W>(pre, before, task, steps)
            },
{
    let before = choose|before: W|
        {
            &&& crate::watcher::stays_missing::<T, W>(pre, before, task, steps)
            &&& #[trigger] W::polls(before, post, task, Progress::Changed)
            &&& post.cached() is None
        };
    assert(W::polls(before, post, task, Progress::Changed));
}

/// A stream hands out the value that was there from the start, if it is to. After that it polls its
/// watcher once for each item: a clone of the new value if there was a change, and the end if the
/// watchable is gone.
pub proof fn law_stream_polls_its_watcher<W: Watcher>(
    stream: &mut WatchStream<W>,
    cx: &mut Context<'_>,
    outcome: Poll<Option<W::Value>>,
) where W::Value: Clone
    requires
        call_ensures(WatchStream::<W>::poll_item, (stream, cx), outcome),
    ensures
        final(stream).initial is None,
        old(stream).initial matches Some(value) ==> outcome == Poll::Ready(Some(value))
            && final(stream).watcher == old(stream).watcher,
        old(stream).initial is None ==> W::polls(
            old(stream).watcher,
            final(stream).watcher,
            crate::sync::task_of(*old(cx)),
            match outcome {
                Poll::Ready(Some(_)) => Progress::Changed,
                Poll::Ready(None) => Progress::Gone,
                Poll::Pending => Progress::Waiting,
            },
        ),
        old(stream).initial is None ==> (outcome matches Poll::Ready(Some(value)) ==> cloned(
            final(stream).watcher.cached(),
            value,
        )),
{
}

/// A poll that may have to wait for changes collects from the log that it finds. Where there was
/// nothing to tell, it leaves a waker of the task with the log, and collects once more after that.
/// It fails exactly if it finds no log.
pub proof fn law_waiting_for_changes_joins_in_between<C>(
    pre: ChangeWatcher<C>,
    post: ChangeWatcher<C>,
    task: Set<Waker>,
    outcome: Poll<Result<(Vec<C>, bool), Disconnected>>,
)
    requires
        ChangeWatcher::polls(pre, post, task, outcome),
    ensures
        post.link() == pre.link(),
        exists|found: Option<Arc<Guarded<ChangeLog<C>>>>| #[trigger]
            pre.link().gives(found) && match found {
                None => outcome matches Poll::Ready(Err(_)) && post == pre,
                Some(log) => {
                    ||| exists|collected: Collected<C>| #[trigger]
                        log.locks(pre.last_epoch(), ChangeLog::<C>::collect, collected)
                            && outcome == Poll::<Result<(Vec<C>, bool), Disconnected>>::Ready(
                            Ok((collected.changes, collected.missed)),
                        ) && post.last_epoch() == collected.epoch
                    ||| exists|waker: Waker, receipt: Receipt, collected: Collected<C>|
                        {
                            &&& task.contains(waker)
                            &&& #[trigger] log.locks_first(
                                waker,
                                ChangeLog::<C>::register,
                                (),
                                receipt,
                            )
                            &&& #[trigger] log.locks_after(
                                pre.last_epoch(),
                                ChangeLog::<C>::collect,
                                receipt,
                                collected,
                            )
                            &&& match outcome {
                                Poll::Ready(Ok((changes, missed))) => {
                                    &&& changes == collected.changes
                                    &&& missed == collected.missed
                                    &&& post.last_epoch() == collected.epoch
                                },
                                Poll::Ready(Err(_)) => false,
                                Poll::Pending => {
                                    &&& collected.changes@.len() == 0
                                    &&& !collected.missed
                                    &&& post.last_epoch() == pre.last_epoch()
                                },
                            }
                        }
                },
            },
{
    let found = choose|found: Option<Arc<Guarded<ChangeLog<C>>>>| #[trigger]
        pre.finds(found) && ChangeWatcher::polls_found(pre, found, post, task, outcome);
    assert(pre.link().gives(found));
    if let Some(log) = found {
        let news = crate::change_watcher::told(outcome);
        let first = choose|collected: Collected<C>| #[trigger]
            crate::log::gives_out(*log, pre.last_epoch(), collected) && ChangeWatcher::takes_in(
                pre,
                collected,
                post,
                news,
            );
        let (waker, receipt) = choose|waker: Waker, receipt: Receipt| #[trigger]
            crate::log::takes_step(*log, crate::log::LogStep::Join(waker), receipt)
                && task.contains(waker) && ChangeWatcher::collects_after(
                pre,
                *log,
                receipt,
                post,
                news,
            );
        let second = choose|collected: Collected<C>| #[trigger]
            crate::log::gives_out_after(*log, pre.last_epoch(), receipt, collected)
                && ChangeWatcher::takes_in(pre, collected, post, news);
        assert(news is Some && ChangeWatcher::collects_from(pre, *log, post, news) ==> log.locks(
            pre.last_epoch(),
            ChangeLog::<C>::collect,
            first,
        ));
        assert(!(news is Some && ChangeWatcher::collects_from(pre, *log, post, news)) ==> {
            &&& log.locks_first(waker, ChangeLog::<C>::register, (), receipt)
            &&& log.locks_after(pre.last_epoch(), ChangeLog::<C>::collect, receipt, second)
        });
    }
}

/// The future and the stream of changes poll their watcher once for each batch. The stream ends
/// where the poll fails.
pub proof fn law_batches_come_from_polling<C>(
    future: &mut NextChangesFut<'_, C>,
    cx: &mut Context<'_>,
    batch: Poll<Result<(Vec<C>, bool), Disconnected>>,
    stream: &mut ChangeStream<C>,
    stream_cx: &mut Context<'_>,
    item: Poll<Option<(Vec<C>, bool)>>,
)
    requires
        call_ensures(NextChangesFut::<C>::poll_next, (future, cx), batch),
        call_ensures(ChangeStream::<C>::poll_item, (stream, stream_cx), item),
    ensures
        ChangeWatcher::polls(
            *old(future).watcher,
            *final(future).watcher,
            crate::sync::task_of(*old(cx)),
            batch,
        ),
        ChangeWatcher::polls(
            old(stream).watcher,
            final(stream).watcher,
            crate::sync::task_of(*old(stream_cx)),
            match item {
                Poll::Ready(Some(news)) => Poll::Ready(Ok(news)),
                Poll::Ready(None) => Poll::Ready(Err(Disconnected)),
                Poll::Pending => Poll::Pending,
            },
        ),
{
}

/// A poll that may have to wait for a change looks at the epoch of the source that it finds. Where
/// that is not greater, it leaves a waker of the task with the source, and looks once more after
/// that. It fails exactly if it finds no source.
pub proof fn law_waiting_for_an_epoch_joins_in_between(
    watcher: &mut EpochWatcher,
    cx: &mut Context<'_>,
    outcome: Poll<Result<(), Disconnected>>,
)
    requires
        call_ensures(EpochWatcher::poll_or_wait, (watcher, cx), outcome),
    ensures
        final(watcher).link() == old(watcher).link(),
        exists|found: Option<Arc<Guarded<Notifier>>>| #[trigger]
            old(watcher).link().gives(found) && match found {
                None => outcome matches Poll::Ready(Err(_)) && *final(watcher) == *old(watcher),
                Some(notifier) => {
                    ||| exists|current: u64| #[trigger]
                        notifier.locks((), crate::notifier::lent_epoch, current)
                            && current > old(watcher).last_epoch()
                            && final(watcher).last_epoch() == current
                            && outcome
                            matches Poll::Ready(Ok(_))
                    ||| exists|waker: Waker, receipt: Receipt, current: u64|
                        {
                            &&& crate::sync::task_of(*old(cx)).contains(waker)
                            &&& #[trigger] notifier.locks_first(
                                waker,
                                Notifier::register,
                                (),
                                receipt,
                            )
                            &&& #[trigger] notifier.locks_after(
                                (),
                                crate::notifier::lent_epoch,
                                receipt,
                                current,
                            )
                            &&& if current > old(watcher).last_epoch() {
                                &&& final(watcher).last_epoch() == current
                                &&& outcome matches Poll::Ready(Ok(_))
                            } else {
                                &&& final(watcher).last_epoch() == old(watcher).last_epoch()
                                &&& outcome is Pending
                            }
                        }
                },
            },
{
    let pre = *watcher;
    let post = *final(watcher);
    let task = crate::sync::task_of(*cx);
    let progress = crate::watcher::progress(outcome);
    let found = choose|found: Option<Arc<Guarded<Notifier>>>| #[trigger]
        pre.finds(found) && EpochWatcher::polls_found(pre, found, post, task, progress);
    assert(pre.link().gives(found));
    if let Some(notifier) = found {
        let first = choose|current: u64| #[trigger]
            crate::notifier::shows_epoch(*notifier, current) && crate::epoch::looks_at_epoch(
                pre.last_epoch(),
                Some(current),
                post.last_epoch(),
                true,
            );
        let (waker, receipt) = choose|waker: Waker, receipt: Receipt| #[trigger]
            crate::notifier::takes_step(
                *notifier,
                crate::notifier::NotifierStep::Join(waker),
                receipt,
            ) && task.contains(waker) && EpochWatcher::looks_at_after(
                pre,
                *notifier,
                receipt,
                post,
                progress is Changed,
            );
        let second = choose|current: u64| #[trigger]
            crate::notifier::shows_epoch_after(*notifier, receipt, current)
                && crate::epoch::looks_at_epoch(
                pre.last_epoch(),
                Some(current),
                post.last_epoch(),
                progress is Changed,
            );
        assert(progress is Changed && EpochWatcher::looks_at(pre, *notifier, post, true)
            ==> notifier.locks((), crate::notifier::lent_epoch, first));
        assert(!(progress is Changed && EpochWatcher::looks_at(pre, *notifier, post, true)) ==> {
            &&& notifier.locks_first(waker, Notifier::register, (), receipt)
            &&& notifier.locks_after((), crate::notifier::lent_epoch, receipt, second)
        });
    }
}

/// The future of an epoch watcher polls it once.
pub proof fn law_epoch_future_polls_its_watcher(
    future: &mut EpochChangedFut<'_>,
    cx: &mut Context<'_>,
    outcome: Poll<Result<(), Disconnected>>,
)
    requires
        call_ensures(EpochChangedFut::poll_next, (future, cx), outcome),
    ensures
        EpochWatcher::polls(
            *old(future).watcher,
            *final(future).watcher,
            crate::sync::task_of(*old(cx)),
            match outcome {
                Poll::Ready(Ok(_)) => Progress::Changed,
                Poll::Ready(Err(_)) => Progress::Gone,
                Poll::Pending => Progress::Waiting,
            },
        ),
{
}

/// An update of a watcher takes over what the state that it finds has to tell since the last look,
/// and nothing where it finds none. Whether a change is pending is what that state answers.
pub proof fn law_direct_update_goes_by_what_is_found<T: Clone>(
    pre: Direct<T>,
    post: Direct<T>,
    changed: bool,
    pending: bool,
)
    requires
        Direct::<T>::updates(pre, post, changed),
        pre.answers_changed(pending),
    ensures
        post.link() == pre.link(),
        exists|found: Option<Arc<WatchableShared<T>>>| #[trigger]
            pre.link().gives(found) && match found {
                None => !changed && post.seen() == pre.seen(),
                Some(shared) => {
                    &&& crate::sync::reads(
                        shared.state_lock(),
                        pre.seen().epoch,
                        WatchableState::<T>::since,
                        if changed {
                            Some(post.seen())
                        } else {
                            None
                        },
                    )
                    &&& !changed ==> post.seen() == pre.seen()
                },
            },
        exists|found: Option<Arc<WatchableShared<T>>>| #[trigger]
            pre.link().gives(found) && match found {
                None => !pending,
                Some(shared) => crate::sync::reads(
                    shared.state_lock(),
                    pre.seen().epoch,
                    WatchableState::<T>::is_after,
                    pending,
                ),
            },
{
    let found = choose|found: Option<Arc<WatchableShared<T>>>| #[trigger]
        pre.link().gives(found) && crate::shared::updates_found(
            found,
            pre.seen(),
            post.seen(),
            changed,
        );
    assert(pre.link().gives(found));
}

/// An update of a light watcher reads the epoch that it finds. Where that is greater than the one
/// that it had caught up with, it takes it over, with a clone of the value that it finds after
/// that; where it is not, or the source is gone, it stays as it was.
pub proof fn law_lite_update_goes_by_the_epoch<T: Clone>(
    pre: DirectLite<T>,
    post: DirectLite<T>,
    changed: bool,
)
    requires
        DirectLite::<T>::updates(pre, post, changed),
    ensures
        post.links() == pre.links(),
        !changed ==> post.last_epoch() == pre.last_epoch() && post.value() == pre.value(),
        exists|data: Option<Arc<RwLock<T>>>, epoch: Option<Arc<Counter>>|
            {
                &&& #[trigger] pre.links().0.gives(data)
                &&& #[trigger] pre.links().1.gives(epoch)
                &&& match (data, epoch) {
                    (Some(data), Some(epoch)) => exists|current: u64, receipt: Glance|
                        {
                            &&& #[trigger] crate::epoch::shows_count(*epoch, current, receipt)
                            &&& changed == (current > pre.last_epoch())
                            &&& changed ==> post.last_epoch() == current
                            &&& changed ==> crate::sync::reads_after(
                                *data,
                                (),
                                clone_of::<T>,
                                receipt,
                                post.value(),
                            )
                        },
                    _ => !changed,
                }
            },
{
    let (data, epoch) = choose|data: Option<Arc<RwLock<T>>>, epoch: Option<Arc<Counter>>|
        #[trigger] pre.links().0.gives(data) && #[trigger] pre.finds(epoch) && DirectLite::looks(
            pre,
            data,
            epoch,
            post,
            changed,
        );
    assert(pre.links().0.gives(data) && pre.links().1.gives(epoch));
}

/// An update of an atomic watcher reads the epoch that it finds. Where that is greater than the one
/// that it had caught up with, it takes it over, with the value that it loads after that; where it
/// is not, or the source is gone, it stays as it was.
pub proof fn law_atomic_update_goes_by_the_epoch<T: Copy>(
    pre: DirectAtomic<T>,
    post: DirectAtomic<T>,
    changed: bool,
)
    requires
        DirectAtomic::<T>::updates(pre, post, changed),
    ensures
        post.links() == pre.links(),
        !changed ==> post.last_epoch() == pre.last_epoch() && post.value() == pre.value(),
        exists|data: Option<Arc<AtomicCell<T>>>, epoch: Option<Arc<Counter>>|
            {
                &&& #[trigger] pre.links().0.gives(data)
                &&& #[trigger] pre.links().1.gives(epoch)
                &&& match (data, epoch) {
                    (Some(data), Some(epoch)) => exists|current: u64, receipt: Glance|
                        {
                            &&& #[trigger] crate::epoch::shows_count(*epoch, current, receipt)
                            &&& changed == (current > pre.last_epoch())
                            &&& changed ==> post.last_epoch() == current
                            &&& changed ==> crate::atomic::loads_after(
                                *data,
                                receipt,
                                post.value(),
                            )
                        },
                    _ => !changed,
                }
            },
{
    let (data, epoch) = choose|data: Option<Arc<AtomicCell<T>>>, epoch: Option<Arc<Counter>>|
        #[trigger] pre.links().0.gives(data) && #[trigger] pre.finds(epoch)
            && DirectAtomic::looks(pre, data, epoch, post, changed);
    assert(pre.links().0.gives(data) && pre.links().1.gives(epoch));
}

/// A light or an atomic watcher that is polled fails exactly if the epoch of its source is gone,
/// and is updated if not. It has a pending change exactly if that epoch is greater than the one
/// that it had caught up with.
pub proof fn law_counting_watchers_poll_by_updating<T: Clone, C: Copy>(
    pre: DirectLite<T>,
    post: DirectLite<T>,
    atomic_pre: DirectAtomic<C>,
    atomic_post: DirectAtomic<C>,
    task: Set<Waker>,
    outcome: Progress,
    pending: bool,
)
    requires
        DirectLite::<T>::polls(pre, post, task, outcome),
        DirectAtomic::<C>::polls(atomic_pre, atomic_post, task, outcome),
        pre.answers_changed(pending),
        atomic_pre.answers_changed(pending),
    ensures
        exists|found: Option<Arc<Counter>>| #[trigger]
            pre.links().1.gives(found) && match outcome {
                Progress::Changed => found is Some && DirectLite::<T>::updates(pre, post, true),
                Progress::Waiting => found is Some && DirectLite::<T>::updates(pre, post, false),
                Progress::Gone => found is None && post == pre,
            },
        exists|found: Option<Arc<Counter>>| #[trigger]
            atomic_pre.links().1.gives(found) && match outcome {
                Progress::Changed => found is Some && DirectAtomic::<C>::updates(
                    atomic_pre,
                    atomic_post,
                    true,
                ),
                Progress::Waiting => found is Some && DirectAtomic::<C>::updates(
                    atomic_pre,
                    atomic_post,
                    false,
                ),
                Progress::Gone => found is None && atomic_post == atomic_pre,
            },
        counter_answers(pre.links().1, pre.last_epoch(), pending),
        counter_answers(atomic_pre.links().1, atomic_pre.last_epoch(), pending),
{
    let found = choose|found: Option<Arc<Counter>>| #[trigger]
        pre.finds(found) && match found {
            Some(_) => !(outcome is Gone) && DirectLite::<T>::updates(
                pre,
                post,
                outcome is Changed,
            ),
            None => outcome is Gone && post == pre,
        };
    assert(pre.links().1.gives(found));
    let found = choose|found: Option<Arc<Counter>>| #[trigger]
        atomic_pre.finds(found) && match found {
            Some(_) => !(outcome is Gone) && DirectAtomic::<C>::updates(
                atomic_pre,
                atomic_post,
                outcome is Changed,
            ),
            None => outcome is Gone && atomic_post == atomic_pre,
        };
    assert(atomic_pre.links().1.gives(found));
}

/// The counter behind the reference, where there is one, shows an epoch greater than `last`, or
/// not, as `answer` says. Where there is none, it is not.
pub open spec fn counter_answers(link: WeakRef<Counter>, last: u64, answer: bool) -> bool {
    exists|found: Option<Arc<Counter>>| #[trigger]
        link.gives(found) && match found {
            Some(epoch) => exists|current: u64, receipt: Glance| #[trigger]
                crate::epoch::shows_count(*epoch, current, receipt) && (answer <==> current > last),
            None => !answer,
        }
}

/// A clone of a state is of the same epoch, with a clone of the value.
pub proof fn law_state_clone_keeps_the_epoch<T: Clone>(
    state: &WatchableState<T>,
    copy: WatchableState<T>,
)
    requires
        call_ensures(<WatchableState<T> as Clone>::clone, (state,), copy),
    ensures
        copy.epoch == state.epoch,
        cloned(state.value, copy.value),
{
}

/// A clone of a change is the same change, with clones of what it holds.
pub proof fn law_change_clones_are_the_same_change<T: Clone, K: Clone, V: Clone>(
    element: &VecChange<T>,
    element_copy: VecChange<T>,
    entry: &MapChange<K, V>,
    entry_copy: MapChange<K, V>,
    value: &ValueChange<T>,
    value_copy: ValueChange<T>,
)
    requires
        call_ensures(<VecChange<T> as Clone>::clone, (element,), element_copy),
        call_ensures(<MapChange<K, V> as Clone>::clone, (entry,), entry_copy),
        call_ensures(<ValueChange<T> as Clone>::clone, (value,), value_copy),
    ensures
        match *element {
            VecChange::Push { value } => element_copy matches VecChange::Push { value: copy }
                && cloned(value, copy),
            VecChange::Pop => element_copy is Pop,
            VecChange::Insert { index, value } => element_copy matches VecChange::Insert {
                index: place,
                value: copy,
            } && place == index && cloned(value, copy),
            VecChange::Remove { index } => element_copy matches VecChange::Remove { index: place }
                && place == index,
            VecChange::Replace { index, value } => element_copy matches VecChange::Replace {
                index: place,
                value: copy,
            } && place == index && cloned(value, copy),
            VecChange::Clear => element_copy is Clear,
        },
        match *entry {
            MapChange::Insert { key, value } => entry_copy matches MapChange::Insert {
                key: key_copy,
                value: copy,
            } && cloned(key, key_copy) && cloned(value, copy),
            MapChange::Remove { key } => entry_copy matches MapChange::Remove { key: key_copy }
                && cloned(key, key_copy),
            MapChange::Clear => entry_copy is Clear,
        },
        cloned(value.old, value_copy.old),
        cloned(value.new, value_copy.new),
{
}

/// Unless asked otherwise, a source with history holds up to 1024 changes.
pub proof fn law_default_room_for_changes<T: Clone, K: Eq + std::hash::Hash + Clone, V: Clone>(
    elements: WatchableVec<T>,
    entries: WatchableMap<K, V>,
    handle: WatchableWithHistory<T>,
    value: T,
)
    requires
        call_ensures(WatchableVec::<T>::new, (), elements),
        call_ensures(WatchableMap::<K, V>::new, (), entries),
        call_ensures(WatchableWithHistory::<T>::new, (value,), handle),
    ensures
        elements.log().limit() == 1024,
        entries.log().limit() == 1024,
        handle.log().limit() == 1024,
        crate::sync::made_with(handle.data(), value),
{
}

/// Epochs are counted up by one, modulo the number of them that there are.
pub proof fn law_epochs_wrap_around(epoch: &mut u64)
    requires
        call_ensures(bump, (epoch,), ()),
    ensures
        *final(epoch) as int == (*old(epoch) + 1) % (u64::MAX + 1),
{
}

} // verus!
