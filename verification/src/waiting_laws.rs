//! What a watcher that was polled and has to wait can count on: the next change wakes it, or has
//! woken it already.
//!
//! Each of these laws starts from what polling says of itself. It left a waker of the task with
//! the source, and looked once more after that. The requirements say that this look found what the
//! steps of all threads had led to by then.
use std::sync::Arc;
use std::task::{Poll, Waker};

use vstd::prelude::*;

use crate::change_watcher::ChangeWatcher;
use crate::epoch_watcher::EpochWatcher;
use crate::error::Disconnected;
use crate::log::{ChangeLog, Collected, LogStep, LogView};
use crate::notifier::{Notifier, NotifierStep, NotifierView};
use crate::shared::{SharedStep, WatchableShared};
use crate::shared_laws::SharedView;
use crate::state::WatchableState;
use crate::sync::{Guarded, Receipt};
use crate::watcher::Progress;

verus! {

/// What a watched value and its waiting tasks have come to by the time of the second look: some
/// steps, then the watcher's joining, then some more steps.
pub open spec fn shared_by_then<T>(
    start: SharedView<T>,
    before: Seq<SharedStep<T>>,
    waker: Waker,
    after: Seq<SharedStep<T>>,
) -> SharedView<T> {
    start.stepped_all(before).stepped(SharedStep::Join(waker)).stepped_all(after)
}

/// A watcher of a value that had caught up, was polled and has to wait has left a waker of its
/// task on the list, and nothing that it has not seen was there when it looked after that. So it
/// is on the list, or was woken. The epochs have to last.
pub proof fn law_waiting_for_a_value_is_safe<T: Clone>(
    shared: &WatchableShared<T>,
    pre: WatchableState<T>,
    post: WatchableState<T>,
    task: Set<Waker>,
    start: SharedView<T>,
    before: Seq<SharedStep<T>>,
    after: Seq<SharedStep<T>>,
) -> (waker: Waker)
    requires
        shared.polled(pre, post, task, Progress::Waiting),
        pre.epoch == start.state.epoch,
        start.state.epoch + before.len() + after.len() <= u64::MAX,
        forall|waker: Waker, receipt: Receipt, news: Option<WatchableState<T>>|
            #![trigger shared_by_then(start, before, waker, after), shared.tells_after(
                pre.epoch,
                receipt,
                news,
            )]
            shared.takes(SharedStep::Join(waker), receipt) && shared.tells_after(
                pre.epoch,
                receipt,
                news,
            ) ==> shared_by_then(start, before, waker, after).state.tells(pre.epoch, news),
    ensures
        post == pre,
        task.contains(waker),
        exists|receipt: Receipt| shared.takes(SharedStep::Join(waker), receipt),
        shared_by_then(start, before, waker, after).watchers.contains(waker) || shared_by_then(
            start,
            before,
            waker,
            after,
        ).woken.contains(waker),
{
    let (waker, receipt) = choose|waker: Waker, receipt: Receipt| #[trigger]
        shared.takes(SharedStep::Join(waker), receipt) && task.contains(waker)
            && shared.shows_after(pre, post, false, receipt);
    let news: Option<WatchableState<T>> = None;
    assert(shared.tells_after(pre.epoch, receipt, news));
    assert(shared_by_then(start, before, waker, after).state.tells(pre.epoch, news));
    crate::shared_laws::law_no_change_goes_unnoticed(start, pre, before, waker, after);
    waker
}

/// What a notifier has come to by the time of the second look.
pub open spec fn notifier_by_then(
    start: NotifierView,
    before: Seq<NotifierStep>,
    waker: Waker,
    after: Seq<NotifierStep>,
) -> NotifierView {
    start.stepped_all(before).joined(waker).stepped_all(after)
}

/// A watcher of an epoch that had caught up, was polled and has to wait has left a waker of its
/// task with the notifier, and the epoch was the same when it looked after that. So the next
/// change wakes it. The epochs have to last.
pub proof fn law_waiting_for_an_epoch_is_safe(
    notifier: Arc<Guarded<Notifier>>,
    pre: EpochWatcher,
    post: EpochWatcher,
    task: Set<Waker>,
    start: NotifierView,
    before: Seq<NotifierStep>,
    after: Seq<NotifierStep>,
) -> (waker: Waker)
    requires
        EpochWatcher::polls_found(pre, Some(notifier), post, task, Progress::Waiting),
        start.wf(),
        pre.last_epoch() == start.epoch,
        start.epoch + before.len() + after.len() <= u64::MAX,
        forall|waker: Waker, receipt: Receipt, epoch: u64|
            #![trigger notifier_by_then(
                start,
                before,
                waker,
                after,
            ), crate::notifier::shows_epoch_after(*notifier, receipt, epoch)]
            crate::notifier::takes_step(*notifier, NotifierStep::Join(waker), receipt)
                && crate::notifier::shows_epoch_after(*notifier, receipt, epoch) ==> epoch
                == notifier_by_then(start, before, waker, after).epoch,
    ensures
        post.last_epoch() == pre.last_epoch(),
        task.contains(waker),
        exists|receipt: Receipt|
            crate::notifier::takes_step(*notifier, NotifierStep::Join(waker), receipt),
        notifier_by_then(start, before, waker, after).woken().contains(waker),
{
    let (waker, receipt) = choose|waker: Waker, receipt: Receipt| #[trigger]
        crate::notifier::takes_step(*notifier, NotifierStep::Join(waker), receipt)
            && task.contains(waker) && EpochWatcher::looks_at_after(
            pre,
            *notifier,
            receipt,
            post,
            false,
        );
    let epoch = choose|epoch: u64| #[trigger]
        crate::notifier::shows_epoch_after(*notifier, receipt, epoch)
            && crate::epoch::looks_at_epoch(
            pre.last_epoch(),
            Some(epoch),
            post.last_epoch(),
            false,
        );
    assert(epoch == notifier_by_then(start, before, waker, after).epoch);
    crate::notifier::law_no_change_goes_unnoticed(start, before, waker, after);
    waker
}

/// What a log has come to by the time of the second look.
pub open spec fn log_by_then<C>(
    start: LogView<C>,
    before: Seq<LogStep<C>>,
    waker: Waker,
    after: Seq<LogStep<C>>,
) -> LogView<C> {
    start.stepped_all(before).joined(waker).stepped_all(after)
}

/// A watcher of changes that had caught up, was polled and has to wait has left a waker of its
/// task with the log, and there was no news when it looked after that. So the next change wakes
/// it. The epochs have to last.
pub proof fn law_waiting_for_changes_is_safe<C>(
    log: Arc<Guarded<ChangeLog<C>>>,
    pre: ChangeWatcher<C>,
    post: ChangeWatcher<C>,
    task: Set<Waker>,
    start: LogView<C>,
    before: Seq<LogStep<C>>,
    after: Seq<LogStep<C>>,
) -> (waker: Waker)
    requires
        ChangeWatcher::<C>::polls_found(
            pre,
            Some(log),
            post,
            task,
            Poll::<Result<(Vec<C>, bool), Disconnected>>::Pending,
        ),
        start.wf(),
        pre.last_epoch() == start.epoch,
        start.epoch + before.len() + after.len() < u64::MAX,
        forall|waker: Waker, receipt: Receipt, collected: Collected<C>|
            #![trigger log_by_then(start, before, waker, after), crate::log::gives_out_after(
                *log,
                pre.last_epoch(),
                receipt,
                collected,
            )]
            crate::log::takes_step(*log, LogStep::Join(waker), receipt)
                && crate::log::gives_out_after(*log, pre.last_epoch(), receipt, collected)
                ==> collected.comes_from(
                log_by_then(start, before, waker, after),
                pre.last_epoch(),
            ),
    ensures
        post.last_epoch() == pre.last_epoch(),
        task.contains(waker),
        exists|receipt: Receipt| crate::log::takes_step(*log, LogStep::Join(waker), receipt),
        log_by_then(start, before, waker, after).woken().contains(waker),
{
    let outcome = Poll::<Result<(Vec<C>, bool), Disconnected>>::Pending;
    let (waker, receipt) = choose|waker: Waker, receipt: Receipt| #[trigger]
        crate::log::takes_step(*log, LogStep::Join(waker), receipt) && task.contains(waker)
            && ChangeWatcher::<C>::collects_after(
            pre,
            *log,
            receipt,
            post,
            crate::change_watcher::told(outcome),
        );
    let collected = choose|collected: Collected<C>| #[trigger]
        crate::log::gives_out_after(*log, pre.last_epoch(), receipt, collected)
            && ChangeWatcher::<C>::takes_in(
            pre,
            collected,
            post,
            crate::change_watcher::told(outcome),
        );
    assert(collected.comes_from(log_by_then(start, before, waker, after), pre.last_epoch()));
    crate::log_laws::law_no_change_goes_unnoticed(start, before, waker, after);
    waker
}

} // verus!
