//! What holds of a log of changes over several operations.
use std::task::Waker;

use vstd::prelude::*;

use crate::log::{Aftermath, ChangeLog, Collected, LogStep, LogView};
use crate::sync::{Guarded, Receipt};

verus! {

impl<C> LogView<C> {
    /// The log after several more changes, the first of them first.
    pub open spec fn recorded_all(self, changes: Seq<C>) -> Self
        decreases changes.len(),
    {
        if changes.len() == 0 {
            self
        } else {
            self.recorded_all(changes.drop_last()).recorded(changes.last())
        }
    }
}

/// `part` is what is left of `whole` when some elements are taken out, at the
/// positions `kept`.
pub open spec fn picks<C>(part: Seq<C>, whole: Seq<C>, kept: Seq<int>) -> bool {
    &&& kept.len() == part.len()
    &&& forall|i: int|
        #![trigger kept[i]]
        0 <= i < kept.len() ==> 0 <= kept[i] < whole.len() && part[i] == whole[kept[i]]
    &&& forall|i: int, j: int| 0 <= i < j < kept.len() ==> kept[i] < kept[j]
}

/// Recording changes moves the epoch on by one each, and leaves the capacity and the
/// well-formedness of the log alone.
proof fn lemma_recorded_all<C>(log: LogView<C>, changes: Seq<C>)
    requires
        log.wf(),
        log.epoch + changes.len() <= u64::MAX,
    ensures
        log.recorded_all(changes).wf(),
        log.recorded_all(changes).epoch == log.epoch + changes.len(),
        log.recorded_all(changes).capacity == log.capacity,
    decreases changes.len(),
{
    if changes.len() > 0 {
        lemma_recorded_all(log, changes.drop_last());
    }
}

/// As long as there is room, a log keeps every change, in the order in which they
/// came. A watcher that had caught up with it before collects all of them and misses
/// none.
pub proof fn law_watcher_collects_all_in_order<C>(log: LogView<C>, changes: Seq<C>)
    requires
        log.wf(),
        log.changes.len() + changes.len() <= log.capacity,
        log.epoch + changes.len() <= u64::MAX,
        changes.len() > 0,
    ensures
        log.recorded_all(changes).news(log.epoch) == log.changes + changes,
        !log.recorded_all(changes).missed(log.epoch),
    decreases changes.len(),
{
    lemma_recorded_all(log, changes);
    lemma_recorded_all(log, changes.drop_last());
    if changes.len() == 1 {
        assert(changes.drop_last() =~= Seq::<C>::empty());
        assert(log.recorded_all(changes.drop_last()) == log);
        assert(log.changes.push(changes.last()) =~= log.changes + changes);
    } else {
        law_watcher_collects_all_in_order(log, changes.drop_last());
        assert((log.changes + changes.drop_last()).push(changes.last()) =~= log.changes
            + changes);
    }
}

/// A watcher of an empty log is told that it missed changes exactly when more came
/// than there is room for.
pub proof fn law_missed_means_more_than_capacity<C>(log: LogView<C>, changes: Seq<C>)
    requires
        log.wf(),
        log.changes.len() == 0,
        log.epoch + changes.len() <= u64::MAX,
    ensures
        log.recorded_all(changes).missed(log.epoch) <==> changes.len() > log.capacity,
{
    lemma_recorded_all(log, changes);
    if 0 < changes.len() <= log.capacity {
        law_watcher_collects_all_in_order(log, changes);
    }
}

/// What a log holds of the changes it was given is in the order in which they came:
/// it only ever leaves some out.
pub proof fn law_log_keeps_order<C>(log: LogView<C>, changes: Seq<C>) -> (kept: Seq<int>)
    requires
        log.wf(),
        log.epoch + changes.len() <= u64::MAX,
    ensures
        picks(log.recorded_all(changes).changes, log.changes + changes, kept),
    decreases changes.len(),
{
    if changes.len() == 0 {
        assert(log.changes + changes =~= log.changes);
        Seq::new(log.changes.len(), |i: int| i)
    } else {
        let before = log.recorded_all(changes.drop_last());
        let kept = law_log_keeps_order(log, changes.drop_last());
        lemma_recorded_all(log, changes.drop_last());
        let whole = log.changes + changes;
        assert(forall|i: int|
            0 <= i < whole.len() - 1 ==> whole[i] == (log.changes + changes.drop_last())[i]);
        if before.changes.len() < before.capacity {
            kept.push(whole.len() - 1)
        } else {
            kept.drop_first()
        }
    }
}

/// A watcher is told something exactly when it is behind.
pub proof fn law_news_exactly_when_behind<C>(log: LogView<C>, since: u64)
    ensures
        (log.news(since).len() > 0 || log.missed(since)) ==> since < log.epoch,
        since < log.epoch ==> (log.news(since).len() > 0 || log.missed(since)),
{
}

/// Collecting catches up: as long as there is no further change, there is nothing
/// left to collect, and nothing was missed.
pub proof fn law_collecting_catches_up<C>(log: LogView<C>, since: u64)
    ensures
        log.collected(since).news(log.epoch).len() == 0,
        !log.collected(since).missed(log.epoch),
{
}

/// All watchers of one log collect from the same queue. Once one of them has
/// collected, another one that was behind as well gets nothing, and is told so.
pub proof fn law_others_miss_what_one_collects<C>(log: LogView<C>, since: u64, other: u64)
    requires
        since < log.epoch,
        other < log.epoch,
    ensures
        log.collected(since).news(other).len() == 0,
        log.collected(since).missed(other),
{
}

/// A task that waits is woken by the next change, together with all who waited before
/// it, and waits no more.
pub proof fn law_change_wakes_waiting_tasks<C>(log: LogView<C>, waker: Waker, change: C)
    requires
        log.wf(),
        log.epoch < u64::MAX,
    ensures
        log.joined(waker).woken() == log.watchers.push(waker),
        log.joined(waker).recorded(change).watchers.len() == 0,
{
    assert(crate::epoch::next_epoch(log.epoch) > log.waker_epoch);
}

impl<C> LogView<C> {
    /// The log after one step.
    pub open spec fn stepped(self, step: LogStep<C>) -> Self {
        match step {
            LogStep::Record(change) => self.recorded(change),
            LogStep::Restart(change) => self.drained().recorded(change),
            LogStep::Collect(since) => self.collected(since),
            LogStep::Join(waker) => self.joined(waker),
        }
    }

    /// The log after several steps, the first of them first.
    pub open spec fn stepped_all(self, steps: Seq<LogStep<C>>) -> Self
        decreases steps.len(),
    {
        if steps.len() == 0 {
            self
        } else {
            self.stepped_all(steps.drop_last()).stepped(steps.last())
        }
    }
}

/// The steps of a log are what the functions do that are run behind its mutex, whatever they
/// find there. A change gives out the tasks that it wakes, and collecting gives out the news.
pub proof fn law_steps_are_what_runs<C>(change: C, since: u64, waker: Waker)
    ensures
        forall|content: &mut ChangeLog<C>, aftermath: Aftermath<C>| #[trigger]
            call_ensures(ChangeLog::<C>::record, (content, change), aftermath) ==> {
                &&& final(content)@ == (*content)@.stepped(LogStep::Record(change))
                &&& aftermath.woken@ == (*content)@.woken()
            },
        forall|content: &mut ChangeLog<C>, result: (Vec<C>, Aftermath<C>)| #[trigger]
            call_ensures(ChangeLog::<C>::restart, (content, change), result) ==> {
                &&& final(content)@ == (*content)@.stepped(LogStep::Restart(change))
                &&& result.1.woken@ == (*content)@.woken()
            },
        forall|content: &mut ChangeLog<C>, collected: Collected<C>| #[trigger]
            call_ensures(ChangeLog::<C>::collect, (content, since), collected) ==> {
                &&& final(content)@ == (*content)@.stepped(LogStep::Collect(since))
                &&& collected.comes_from((*content)@, since)
            },
        forall|content: &mut ChangeLog<C>| #[trigger]
            call_ensures(ChangeLog::<C>::register, (content, waker), ()) ==> final(content)@
                == (*content)@.stepped(LogStep::Join(waker)),
{
}

/// A thread that records a change finds a well-formed log behind the mutex, and wakes every task
/// that waits there once the change is recorded. The epochs have to last.
pub proof fn law_recording_wakes_who_was_found<C>(
    log: &Guarded<ChangeLog<C>>,
    change: C,
    receipt: Receipt,
)
    requires
        crate::log::takes_step(*log, LogStep::Record(change), receipt),
    ensures
        exists|found: &mut ChangeLog<C>, aftermath: Aftermath<C>| #[trigger]
            call_ensures(ChangeLog::<C>::record, (found, change), aftermath) && (*found)@.wf() && (
            (*found)@.has_watchers && (*found)@.epoch < u64::MAX ==> crate::sync::woke_all(
                (*found)@.watchers,
            )),
{
    let aftermath = choose|aftermath: Aftermath<C>| #[trigger]
        log.locks_after(change, ChangeLog::<C>::record, receipt, aftermath)
            && crate::sync::woke_all(aftermath.woken@);
    log.law_order(change, ChangeLog::<C>::record, receipt, aftermath);
    log.law_locks(change, ChangeLog::<C>::record, aftermath);
}

/// The changes among some steps, the first of them first.
pub open spec fn changes_among<C>(steps: Seq<LogStep<C>>) -> Seq<C>
    decreases steps.len(),
{
    if steps.len() == 0 {
        Seq::empty()
    } else {
        match steps.last() {
            LogStep::Record(change) => changes_among(steps.drop_last()).push(change),
            LogStep::Restart(change) => changes_among(steps.drop_last()).push(change),
            _ => changes_among(steps.drop_last()),
        }
    }
}

/// How many of the changes that a log holds after some steps were there before the first of them.
pub open spec fn left_over<C>(log: LogView<C>, steps: Seq<LogStep<C>>) -> nat
    decreases steps.len(),
{
    if steps.len() == 0 {
        log.changes.len()
    } else {
        let before = log.stepped_all(steps.drop_last());
        let left = left_over(log, steps.drop_last());
        match steps.last() {
            LogStep::Record(_) => if before.changes.len() < before.capacity || left == 0 {
                left
            } else {
                (left - 1) as nat
            },
            LogStep::Restart(_) => 0,
            LogStep::Collect(since) => if since < before.epoch {
                0
            } else {
                left
            },
            LogStep::Join(_) => left,
        }
    }
}

/// A log counts all changes, and holds all of them or fewer, next to what is left over.
proof fn lemma_changes_among<C>(log: LogView<C>, steps: Seq<LogStep<C>>)
    requires
        log.wf(),
        log.epoch + steps.len() <= u64::MAX,
    ensures
        log.stepped_all(steps).wf(),
        log.stepped_all(steps).epoch == log.epoch + changes_among(steps).len(),
        changes_among(steps).len() <= steps.len(),
        left_over(log, steps) <= log.stepped_all(steps).changes.len(),
        log.stepped_all(steps).changes.len() - left_over(log, steps) <= changes_among(steps).len(),
        log.stepped_all(steps).changes.len() - left_over(log, steps) == changes_among(steps).len()
            ==> log.stepped_all(steps).changes.skip(left_over(log, steps) as int) == changes_among(
            steps,
        ),
    decreases steps.len(),
{
    let after = log.stepped_all(steps);
    let left = left_over(log, steps) as int;
    if steps.len() > 0 {
        lemma_changes_among(log, steps.drop_last());
        let before = log.stepped_all(steps.drop_last());
        match steps.last() {
            LogStep::Record(change) => {
                if before.changes.len() < before.capacity {
                    assert(after.changes.skip(left) =~= before.changes.skip(left).push(change));
                }
            },
            LogStep::Restart(change) => {
                assert(after.changes.skip(0) =~= seq![change]);
                if changes_among(steps).len() == 1 {
                    assert(changes_among(steps) =~= seq![change]);
                }
            },
            LogStep::Collect(_) => {
                if left == 0 && changes_among(steps).len() == 0 {
                    assert(after.changes.skip(0).len() == after.changes.len());
                    if after.changes.len() == 0 {
                        assert(after.changes.skip(0) =~= changes_among(steps));
                    }
                }
            },
            LogStep::Join(_) => {},
        }
    } else {
        assert(log.changes.skip(left) =~= changes_among(steps));
    }
}

/// A watcher had caught up with a log. Whatever happens to the log, by whomever, the watcher is
/// told something exactly if there was a change. What it collects then is every change since, in
/// order, unless it is told that it missed some, or the log holds changes from before that nobody
/// has collected. The epochs have to last.
pub proof fn law_collected_is_complete_unless_missed<C>(log: LogView<C>, steps: Seq<LogStep<C>>)
    requires
        log.wf(),
        log.epoch + steps.len() <= u64::MAX,
    ensures
        ({
            let end = log.stepped_all(steps);
            &&& (end.news(log.epoch).len() > 0 || end.missed(log.epoch)) <==> changes_among(
                steps,
            ).len() > 0
            &&& !end.missed(log.epoch) && left_over(log, steps) == 0 ==> end.news(log.epoch)
                == changes_among(steps)
        }),
{
    lemma_changes_among(log, steps);
    let end = log.stepped_all(steps);
    if changes_among(steps).len() == 0 {
        assert(changes_among(steps) =~= Seq::<C>::empty());
    }
    if left_over(log, steps) == 0 {
        assert(end.changes.skip(0) =~= end.changes);
    }
}

/// However a log is used, it stays well-formed, keeps its capacity, and its epoch never goes
/// back. A task that waits goes on waiting as long as there is no change.
proof fn lemma_stepped_all<C>(log: LogView<C>, steps: Seq<LogStep<C>>, waker: Waker)
    requires
        log.wf(),
        log.epoch + steps.len() <= u64::MAX,
    ensures
        log.stepped_all(steps).wf(),
        log.stepped_all(steps).capacity == log.capacity,
        log.epoch <= log.stepped_all(steps).epoch <= log.epoch + steps.len(),
        log.stepped_all(steps).epoch == log.epoch && log.watchers.contains(waker)
            ==> log.stepped_all(steps).watchers.contains(waker),
    decreases steps.len(),
{
    if steps.len() > 0 {
        lemma_stepped_all(log, steps.drop_last(), waker);
        let before = log.stepped_all(steps.drop_last());
        if let LogStep::Join(joining) = steps.last() {
            if before.watchers.contains(waker) {
                let i = choose|i: int| 0 <= i < before.watchers.len() && before.watchers[i] == waker;
                assert(before.watchers.push(joining)[i] == waker);
            }
        }
    }
}

/// However a log is used, it keeps to its capacity and stays well-formed. The epochs have to
/// last.
pub proof fn law_log_stays_well_formed<C>(log: LogView<C>, steps: Seq<LogStep<C>>)
    requires
        log.wf(),
        log.epoch + steps.len() <= u64::MAX,
    ensures
        log.stepped_all(steps).wf(),
        log.stepped_all(steps).capacity == log.capacity,
        log.stepped_all(steps).changes.len() <= log.capacity,
{
    lemma_stepped_all(log, steps, arbitrary());
}

/// No change goes unnoticed. A watcher that had caught up with a log begins to wait, and then
/// looks once more. Whatever happens before it waits and before it looks, it either finds
/// news, or it waits and the next change wakes it. The epochs have to last.
pub proof fn law_no_change_goes_unnoticed<C>(
    log: LogView<C>,
    before: Seq<LogStep<C>>,
    waker: Waker,
    after: Seq<LogStep<C>>,
)
    requires
        log.wf(),
        log.epoch + before.len() + after.len() < u64::MAX,
    ensures
        ({
            let end = log.stepped_all(before).joined(waker).stepped_all(after);
            ||| end.news(log.epoch).len() > 0
            ||| end.missed(log.epoch)
            ||| end.woken().contains(waker)
        }),
{
    lemma_stepped_all(log, before, waker);
    let waiting = log.stepped_all(before).joined(waker);
    assert(waiting.watchers.last() == waker);
    assert(waiting.watchers.contains(waker));
    lemma_stepped_all(waiting, after, waker);
    let end = waiting.stepped_all(after);
    lemma_keeps_looking(waiting, after);
    if end.epoch == log.epoch {
        assert(end.wakes());
    }
}

/// Once a task has waited, the log goes on looking for tasks to wake.
proof fn lemma_keeps_looking<C>(log: LogView<C>, steps: Seq<LogStep<C>>)
    requires
        log.has_watchers,
    ensures
        log.stepped_all(steps).has_watchers,
    decreases steps.len(),
{
    if steps.len() > 0 {
        lemma_keeps_looking(log, steps.drop_last());
    }
}

} // verus!
