//! What holds of a value whose changes are counted apart from it.
//!
//! The lightweight variants keep the value and the epoch in places of their own. A writer
//! stores a value first and counts the change next; a watcher reads the epoch first and the
//! value next. What other threads do can come in between.
use vstd::prelude::*;

use crate::lite::{replace_with, CountedStep};

verus! {

/// The values that were stored so far, and how many of them were counted.
#[verifier::ext_equal]
pub struct CountedView<T> {
    /// The values, the first of them first. The last one is there to be read.
    pub stored: Seq<T>,
    /// The epoch.
    pub epoch: nat,
}

impl<T> CountedView<T> {
    /// What always holds: a change is counted only once it is made.
    pub open spec fn wf(self) -> bool {
        0 < self.stored.len() && self.epoch <= self.stored.len()
    }

    /// The step can be taken.
    pub open spec fn allows(self, step: CountedStep<T>) -> bool {
        step is Count ==> self.epoch < self.stored.len()
    }

    /// What one step leads to.
    pub open spec fn stepped(self, step: CountedStep<T>) -> Self {
        match step {
            CountedStep::Store(value) => CountedView {
                stored: self.stored.push(value),
                epoch: self.epoch,
            },
            CountedStep::Count => CountedView { stored: self.stored, epoch: self.epoch + 1 },
        }
    }

    /// The steps lead from here to `end`, the first of them first.
    pub open spec fn leads_to(self, steps: Seq<CountedStep<T>>, end: Self) -> bool
        decreases steps.len(),
    {
        if steps.len() == 0 {
            end == self
        } else {
            self.allows(steps.first()) && self.stepped(steps.first()).leads_to(
                steps.drop_first(),
                end,
            )
        }
    }
}

/// Storing a value is what setting it runs behind the lock, whatever it finds there: the value
/// is there to be read then.
pub proof fn law_store_is_what_runs<T>(counted: CountedView<T>, value: T)
    ensures
        forall|content: &mut T| #[trigger]
            call_ensures(replace_with::<T>, (content, value), ()) ==> *final(content)
                == counted.stepped(CountedStep::Store(value)).stored.last(),
{
}

/// Values are only ever added, and a change is counted only once it is made.
proof fn lemma_leads_to<T>(
    start: CountedView<T>,
    steps: Seq<CountedStep<T>>,
    end: CountedView<T>,
)
    requires
        start.wf(),
        start.leads_to(steps, end),
    ensures
        end.wf(),
        start.epoch <= end.epoch,
        start.stored.is_prefix_of(end.stored),
    decreases steps.len(),
{
    if steps.len() == 0 {
        assert(start.stored =~= end.stored.subrange(0, start.stored.len() as int));
    } else {
        let next = start.stepped(steps.first());
        lemma_leads_to(next, steps.drop_first(), end);
        assert(start.stored =~= end.stored.subrange(0, start.stored.len() as int)) by {
            assert(next.stored =~= end.stored.subrange(0, next.stored.len() as int));
            assert forall|i: int| 0 <= i < start.stored.len() implies start.stored[i]
                == end.stored[i] by {
                assert(start.stored[i] == next.stored[i]);
                assert(next.stored[i] == end.stored.subrange(0, next.stored.len() as int)[i]);
            }
        }
    }
}

/// A value that was stored is there to be read, however many changes are counted after that, as
/// long as nobody stores another one. Once it is counted, every watcher that had not got past the
/// epoch before is behind.
pub proof fn law_stored_value_stays_until_the_next<T>(
    start: CountedView<T>,
    value: T,
    counts: Seq<CountedStep<T>>,
    end: CountedView<T>,
    last: nat,
)
    requires
        start.wf(),
        start.stepped(CountedStep::Store(value)).leads_to(counts, end),
        forall|i: int| 0 <= i < counts.len() ==> #[trigger] counts[i] is Count,
        last <= start.epoch,
    ensures
        end.stored.last() == value,
        end.epoch == start.epoch + counts.len(),
        counts.len() > 0 ==> end.epoch > last,
{
    lemma_counting(start.stepped(CountedStep::Store(value)), counts, end);
}

/// Counting leaves the values alone.
proof fn lemma_counting<T>(start: CountedView<T>, counts: Seq<CountedStep<T>>, end: CountedView<T>)
    requires
        start.leads_to(counts, end),
        forall|i: int| 0 <= i < counts.len() ==> #[trigger] counts[i] is Count,
    ensures
        end.stored == start.stored,
        end.epoch == start.epoch + counts.len(),
    decreases counts.len(),
{
    if counts.len() > 0 {
        assert(counts[0] is Count);
        lemma_counting(start.stepped(counts.first()), counts.drop_first(), end);
    }
}

/// A watcher reads an epoch, and some time later a value. Once all changes are counted, it is
/// behind, or it has the latest value.
pub proof fn law_watcher_that_is_not_behind_has_the_latest_value<T>(
    at_epoch: CountedView<T>,
    between: Seq<CountedStep<T>>,
    at_value: CountedView<T>,
    after: Seq<CountedStep<T>>,
    quiet: CountedView<T>,
)
    requires
        at_epoch.wf(),
        at_epoch.leads_to(between, at_value),
        at_value.leads_to(after, quiet),
        quiet.epoch == quiet.stored.len(),
    ensures
        quiet.epoch > at_epoch.epoch || at_value.stored.last() == quiet.stored.last(),
{
    lemma_leads_to(at_epoch, between, at_value);
    lemma_leads_to(at_value, after, quiet);
    if quiet.epoch <= at_epoch.epoch {
        assert(at_value.stored =~= quiet.stored);
    }
}

} // verus!
