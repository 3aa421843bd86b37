//! The bookkeeping of a source that only tells that it changed.
use std::collections::VecDeque;
use std::task::Waker;

use vstd::prelude::*;

use crate::epoch::{bump, FIRST_EPOCH};
use crate::sync::{Guarded, Kept, Receipt};

verus! {

/// The epoch of a source, and the tasks that wait for it to change.
#[derive(Debug)]
pub struct Notifier {
    epoch: u64,
    has_watchers: bool,
    watchers: VecDeque<Waker>,
}

/// What a notifier holds.
#[verifier::ext_equal]
pub struct NotifierView {
    /// How many changes there were, counted from the first epoch.
    pub epoch: u64,
    /// Some task may be waiting.
    pub has_watchers: bool,
    /// The tasks that wait.
    pub watchers: Seq<Waker>,
}

impl NotifierView {
    /// What always holds of a notifier: no task waits unnoticed.
    pub open spec fn wf(self) -> bool {
        !self.has_watchers ==> self.watchers.len() == 0
    }

    /// A notifier before the first change.
    pub open spec fn quiet() -> Self {
        NotifierView { epoch: FIRST_EPOCH, has_watchers: false, watchers: Seq::empty() }
    }

    /// The tasks that the next change wakes.
    pub open spec fn woken(self) -> Seq<Waker> {
        if self.has_watchers {
            self.watchers
        } else {
            Seq::empty()
        }
    }

    /// The notifier after one more change. It stops looking for tasks once it has found
    /// none.
    pub open spec fn notified(self) -> Self {
        NotifierView {
            epoch: crate::epoch::next_epoch(self.epoch),
            has_watchers: self.has_watchers && self.watchers.len() > 0,
            watchers: if self.has_watchers {
                Seq::empty()
            } else {
                self.watchers
            },
        }
    }

    /// The notifier once another task waits for the next change.
    pub open spec fn joined(self, waker: Waker) -> Self {
        NotifierView {
            epoch: self.epoch,
            has_watchers: true,
            watchers: self.watchers.push(waker),
        }
    }
}

impl View for Notifier {
    type V = NotifierView;

    closed spec fn view(&self) -> NotifierView {
        NotifierView {
            epoch: self.epoch,
            has_watchers: self.has_watchers,
            watchers: self.watchers@,
        }
    }
}

impl Kept for Notifier {
    /// The notifier is well-formed, whatever the limit.
    open spec fn kept(&self, limit: usize) -> bool {
        self@.wf()
    }
}

impl Notifier {
    /// A notifier before the first change.
    pub fn new() -> (notifier: Self)
        ensures
            notifier@ == NotifierView::quiet(),
            notifier@.wf(),
    {
        let notifier = Notifier {
            epoch: FIRST_EPOCH,
            has_watchers: false,
            watchers: VecDeque::new(),
        };
        assert(notifier@ =~= NotifierView::quiet());
        notifier
    }

    /// The epoch of the last change.
    pub fn epoch(&self) -> (epoch: u64)
        ensures
            epoch == self@.epoch,
    {
        self.epoch
    }

    /// Takes note of a change. Returns the tasks to wake.
    pub fn notify(&mut self) -> (woken: VecDeque<Waker>)
        ensures
            final(self)@ == old(self)@.notified(),
            woken@ == old(self)@.woken(),
            old(self)@.wf() ==> final(self)@.wf(),
    {
        bump(&mut self.epoch);
        let mut woken = VecDeque::new();
        if self.has_watchers {
            if self.watchers.len() == 0 {
                self.has_watchers = false;
            } else {
                std::mem::swap(&mut self.watchers, &mut woken);
            }
        }
        assert(self@ =~= old(self)@.notified());
        woken
    }

    /// Adds a task to be woken at the next change.
    pub fn register(&mut self, waker: Waker)
        ensures
            final(self)@ == old(self)@.joined(waker),
            old(self)@.wf() ==> final(self)@.wf(),
    {
        self.has_watchers = true;
        self.watchers.push_back(waker);
        assert(self@ =~= old(self)@.joined(waker));
    }
}

/// The next change wakes every waiting task, in the order in which they came, and leaves
/// none waiting.
pub proof fn law_notification_wakes_all(notifier: NotifierView)
    requires
        notifier.wf(),
    ensures
        notifier.woken() == notifier.watchers,
        notifier.notified().watchers.len() == 0,
        notifier.notified().wf(),
{
    assert(notifier.woken() =~= notifier.watchers);
}

/// A task that joins before a change is woken by it, whether or not the notifier had
/// stopped looking for tasks.
pub proof fn law_joined_task_is_woken(notifier: NotifierView, waker: Waker)
    ensures
        notifier.joined(waker).woken() == notifier.watchers.push(waker),
        notifier.joined(waker).wf(),
{
}

/// Over two changes: the first one wakes each task that waits, once, and the second one wakes
/// nobody. A task that begins to wait again is woken by the change after that.
pub proof fn law_each_wait_is_woken_once(notifier: NotifierView, one: Waker, other: Waker)
    requires
        notifier.wf(),
    ensures
        ({
            let waiting = notifier.joined(one).joined(other);
            let once = waiting.notified();
            let twice = once.notified();
            &&& waiting.woken() == notifier.watchers.push(one).push(other)
            &&& once.woken().len() == 0
            &&& once.joined(one).woken() == seq![one]
            &&& twice.joined(one).woken() == seq![one]
            &&& twice.joined(one).notified().woken().len() == 0
        }),
{
    let once = notifier.joined(one).joined(other).notified();
    assert(once.watchers =~= Seq::empty());
    assert(once.notified().watchers =~= Seq::empty());
    assert(Seq::<Waker>::empty().push(one) =~= seq![one]);
}

/// The epoch of the notifier that is lent out.
pub fn lent_epoch(notifier: &mut Notifier, _nothing: ()) -> (epoch: u64)
    ensures
        epoch == old(notifier)@.epoch,
        final(notifier)@ == old(notifier)@,
{
    notifier.epoch()
}

/// Takes note of a change with the notifier that is lent out. Returns the tasks to wake.
pub fn note_change(notifier: &mut Notifier, _nothing: ()) -> (woken: VecDeque<Waker>)
    ensures
        final(notifier)@ == old(notifier)@.notified(),
        woken@ == old(notifier)@.woken(),
{
    notifier.notify()
}

/// What can happen to a notifier in one go.
pub enum NotifierStep {
    /// The source changes.
    Notify,
    /// A task begins to wait.
    Join(Waker),
}

/// A thread took this step on the notifier behind the mutex. Joining gives the receipt.
/// Notifying asks for it: it comes after what the receipt is for. Where the source changed, the
/// thread woke the tasks that the notifier gave out.
pub open spec fn takes_step(
    notifier: Guarded<Notifier>,
    step: NotifierStep,
    receipt: Receipt,
) -> bool {
    match step {
        NotifierStep::Notify => exists|woken: VecDeque<Waker>| #[trigger]
            notifier.locks_after((), note_change, receipt, woken) && crate::sync::woke_all(woken@),
        NotifierStep::Join(waker) => notifier.locks_first(waker, Notifier::register, (), receipt),
    }
}

/// `epoch` is the epoch that someone who locks the mutex finds behind it.
pub open spec fn shows_epoch(notifier: Guarded<Notifier>, epoch: u64) -> bool {
    notifier.locks((), lent_epoch, epoch)
}

/// `epoch` is the epoch that someone who locks the mutex finds behind it, after what the receipt
/// is for.
pub open spec fn shows_epoch_after(
    notifier: Guarded<Notifier>,
    receipt: Receipt,
    epoch: u64,
) -> bool {
    notifier.locks_after((), lent_epoch, receipt, epoch)
}

impl NotifierView {
    /// The notifier after one step.
    pub open spec fn stepped(self, step: NotifierStep) -> Self {
        match step {
            NotifierStep::Notify => self.notified(),
            NotifierStep::Join(waker) => self.joined(waker),
        }
    }

    /// The notifier after several steps, the first of them first.
    pub open spec fn stepped_all(self, steps: Seq<NotifierStep>) -> Self
        decreases steps.len(),
    {
        if steps.len() == 0 {
            self
        } else {
            self.stepped_all(steps.drop_last()).stepped(steps.last())
        }
    }
}

/// The steps of a notifier are what the functions do that are run behind its mutex, whatever
/// they find there: a change gives out the tasks that it wakes, and a task that joins waits.
pub proof fn law_steps_are_what_runs(waker: Waker)
    ensures
        forall|content: &mut Notifier, woken: VecDeque<Waker>| #[trigger]
            call_ensures(note_change, (content, ()), woken) ==> {
                &&& final(content)@ == (*content)@.stepped(NotifierStep::Notify)
                &&& woken@ == (*content)@.woken()
            },
        forall|content: &mut Notifier| #[trigger]
            call_ensures(Notifier::register, (content, waker), ()) ==> final(content)@
                == (*content)@.stepped(NotifierStep::Join(waker)),
{
}

/// A thread that notifies finds a well-formed notifier behind the mutex, and wakes every task that
/// waits there.
pub proof fn law_notifying_wakes_who_was_found(notifier: &Guarded<Notifier>, receipt: Receipt)
    requires
        takes_step(*notifier, NotifierStep::Notify, receipt),
    ensures
        exists|found: &mut Notifier, woken: VecDeque<Waker>| #[trigger]
            call_ensures(note_change, (found, ()), woken) && (*found)@.wf()
                && crate::sync::woke_all((*found)@.watchers),
{
    let woken = choose|woken: VecDeque<Waker>| #[trigger]
        notifier.locks_after((), note_change, receipt, woken) && crate::sync::woke_all(woken@);
    notifier.law_order((), note_change, receipt, woken);
    notifier.law_locks((), note_change, woken);
    let found = choose|found: &mut Notifier|
        found.kept(notifier.limit()) && #[trigger] call_ensures(note_change, (found, ()), woken);
    law_notification_wakes_all((*found)@);
}

/// However a notifier is used, it stays well-formed, and its epoch never goes back. A task
/// that waits goes on waiting as long as there is no change.
proof fn lemma_stepped_all(notifier: NotifierView, steps: Seq<NotifierStep>, waker: Waker)
    requires
        notifier.wf(),
        notifier.epoch + steps.len() <= u64::MAX,
    ensures
        notifier.stepped_all(steps).wf(),
        notifier.epoch <= notifier.stepped_all(steps).epoch <= notifier.epoch + steps.len(),
        notifier.stepped_all(steps).epoch == notifier.epoch && notifier.watchers.contains(waker)
            ==> notifier.stepped_all(steps).watchers.contains(waker),
    decreases steps.len(),
{
    if steps.len() > 0 {
        lemma_stepped_all(notifier, steps.drop_last(), waker);
        let before = notifier.stepped_all(steps.drop_last());
        if let NotifierStep::Join(joining) = steps.last() {
            if before.watchers.contains(waker) {
                let i = choose|i: int| 0 <= i < before.watchers.len() && before.watchers[i] == waker;
                assert(before.watchers.push(joining)[i] == waker);
            }
        }
    }
}

/// No change goes unnoticed. A watcher that had caught up with its source begins to wait, and
/// then looks once more. Whatever happens before it waits and before it looks, it either
/// finds a greater epoch, or it waits and the next change wakes it. The epochs have to last.
pub proof fn law_no_change_goes_unnoticed(
    notifier: NotifierView,
    before: Seq<NotifierStep>,
    waker: Waker,
    after: Seq<NotifierStep>,
)
    requires
        notifier.wf(),
        notifier.epoch + before.len() + after.len() <= u64::MAX,
    ensures
        ({
            let end = notifier.stepped_all(before).joined(waker).stepped_all(after);
            ||| end.epoch > notifier.epoch
            ||| end.woken().contains(waker)
        }),
{
    lemma_stepped_all(notifier, before, waker);
    let waiting = notifier.stepped_all(before).joined(waker);
    assert(waiting.watchers.last() == waker);
    assert(waiting.watchers.contains(waker));
    lemma_stepped_all(waiting, after, waker);
    law_notification_wakes_all(waiting.stepped_all(after));
}

} // verus!
