//! A watcher of many values of one kind.
use std::task::{Context, Poll, Waker};

use vstd::prelude::*;
use vstd::std_specs::iter::*;

use crate::error::Disconnected;
use crate::watcher::{Progress, Watcher};

verus! {

/// Watcher combinator for joining multiple watchers of the same type.
pub struct Join<W: Watcher> {
    pub watchers: Vec<W>,
    pub current: Vec<W::Value>,
    /// A poll took in a change that it could not report, since one of the watchables was gone.
    pub unreported: bool,
}

/// How many changes some watchers can still report, all together.
pub open spec fn total_left<W: Watcher>(watchers: Seq<W>) -> nat
    decreases watchers.len(),
{
    if watchers.len() == 0 {
        0
    } else {
        total_left(watchers.drop_last()) + watchers.last().changes_left()
    }
}

/// Where each of some watchers uses up one change per report, all of them together
/// use up one for any report.
proof fn lemma_total_left<W: Watcher>(pre: Seq<W>, post: Seq<W>, reports: Seq<bool>)
    requires
        pre.len() == post.len(),
        pre.len() == reports.len(),
        forall|i: int|
            0 <= i < pre.len() ==> (#[trigger] post[i]).changes_left() + (if reports[i] {
                1nat
            } else {
                0nat
            }) <= pre[i].changes_left(),
    ensures
        total_left(post) + (if reports.contains(true) {
            1nat
        } else {
            0nat
        }) <= total_left(pre),
    decreases pre.len(),
{
    if pre.len() > 0 {
        lemma_total_left(pre.drop_last(), post.drop_last(), reports.drop_last());
        assert(post.last() == post[post.len() - 1]);
        if reports.contains(true) && !reports.last() {
            let i = choose|i: int| 0 <= i < reports.len() && reports[i];
            assert(reports.drop_last()[i]);
            assert(reports.drop_last().contains(true));
        }
    }
}

/// Everything that an iterator hands out, in order.
fn collect_all<I: Iterator>(items: I) -> (all: Vec<I::Item>)
    requires
        items.obeys_prophetic_iter_laws(),
        items.decrease() is Some,
    ensures
        all@ == items.remaining(),
{
    let mut rest = items;
    let mut all: Vec<I::Item> = Vec::new();
    loop
        invariant
            rest.obeys_prophetic_iter_laws(),
            rest.decrease() is Some,
            all@ + rest.remaining() == items.remaining(),
        ensures
            all@ == items.remaining(),
        decreases rest.decrease()->0,
    {
        match rest.next() {
            Some(item) => all.push(item),
            None => break,
        }
    }
    all
}

/// What polling several watchers, one after the other, comes to. That one is gone
/// counts most, then a change.
pub open spec fn all_progress(each: Seq<Progress>) -> Progress {
    if each.contains(Progress::Gone) {
        Progress::Gone
    } else if each.contains(Progress::Changed) {
        Progress::Changed
    } else {
        Progress::Waiting
    }
}

impl<W: Watcher> Join<W> where W::Value: Clone {
    /// How many watchers have a value to go with them: all of them, in a join that was
    /// made by [`Join::new`].
    pub open spec fn pairs(self) -> nat {
        if self.watchers.len() <= self.current.len() {
            self.watchers.len() as nat
        } else {
            self.current.len() as nat
        }
    }

    /// The watchers and values from `start` on are the same.
    pub open spec fn same_from(pre: Self, post: Self, start: int) -> bool {
        &&& post.watchers.len() == pre.watchers.len()
        &&& post.current.len() == pre.current.len()
        &&& forall|i: int|
            start <= i < pre.watchers.len() ==> #[trigger] post.watchers[i] == pre.watchers[i]
        &&& forall|i: int|
            start <= i < pre.current.len() ==> #[trigger] post.current[i] == pre.current[i]
    }

    /// An update finds `changed[i]` on each watcher, and each value follows its own. Nothing is
    /// left to be reported.
    pub open spec fn updates_each(pre: Self, post: Self, changed: Seq<bool>) -> bool {
        &&& changed.len() == pre.pairs()
        &&& Self::same_from(pre, post, changed.len() as int)
        &&& forall|i: int|
            #![trigger post.watchers[i]]
            0 <= i < changed.len() ==> {
                &&& W::updates(pre.watchers[i], post.watchers[i], changed[i])
                &&& crate::combine::follows(
                    pre.current[i],
                    post.watchers[i].cached(),
                    post.current[i],
                    changed[i],
                )
            }
        &&& !changed.contains(true) ==> post.current == pre.current
        &&& !post.unreported
    }

    /// Polling comes to `each[i]` on the watchers one after the other, and each value
    /// follows its own watcher where that one has changed. It stops at the first watcher that
    /// is gone: the changes that it took in are then still to be reported.
    pub open spec fn polls_each(
        pre: Self,
        post: Self,
        task: Set<Waker>,
        each: Seq<Progress>,
    ) -> bool {
        &&& each.len() <= pre.pairs()
        &&& each.len() < pre.pairs() ==> each.len() > 0 && each.last() is Gone
        &&& forall|i: int| 0 <= i < each.len() - 1 ==> !(#[trigger] each[i] is Gone)
        &&& Self::same_from(pre, post, each.len() as int)
        &&& forall|i: int|
            #![trigger post.watchers[i]]
            0 <= i < each.len() ==> {
                &&& W::polls(pre.watchers[i], post.watchers[i], task, each[i])
                &&& crate::combine::follows(
                    pre.current[i],
                    post.watchers[i].cached(),
                    post.current[i],
                    each[i] is Changed,
                )
            }
        &&& !each.contains(Progress::Changed) ==> post.current == pre.current
        &&& post.unreported == crate::combine::keeps_unreported(
            pre.unreported,
            all_progress(each),
            each.contains(Progress::Changed),
        )
    }

    /// Creates a new `Join` from an iterator of watchers, brought up to date. The iterator
    /// has to come to an end.
    pub fn new<I: Iterator<Item = W>>(watchers: I) -> (joined: Self)
        requires
            watchers.obeys_prophetic_iter_laws(),
            watchers.decrease() is Some,
        ensures
            joined.watchers.len() == watchers.remaining().len(),
            joined.current.len() == watchers.remaining().len(),
            !joined.unreported,
            forall|i: int|
                #![trigger joined.watchers[i]]
                0 <= i < joined.watchers.len() ==> {
                    &&& exists|changed: bool|
                        W::updates(watchers.remaining()[i], joined.watchers[i], changed)
                    &&& cloned(joined.watchers[i].cached(), joined.current[i])
                },
    {
        let all = collect_all(watchers);
        let ghost given = all@;
        let joined = Self::join_all(all);
        assert forall|i: int| #![trigger joined.watchers[i]] 0 <= i < given.len() implies exists|
            changed: bool,
        | W::updates(watchers.remaining()[i], joined.watchers[i], changed) by {
            let changed = choose|changed: bool| W::updates(given[i], joined.watchers[i], changed);
            assert(W::updates(watchers.remaining()[i], joined.watchers[i], changed));
        }
        joined
    }

    /// Joins watchers, brought up to date.
    fn join_all(watchers: Vec<W>) -> (joined: Self)
        ensures
            joined.watchers.len() == watchers.len(),
            joined.current.len() == watchers.len(),
            !joined.unreported,
            forall|i: int|
                #![trigger joined.watchers[i]]
                0 <= i < watchers.len() ==> {
                    &&& exists|changed: bool| W::updates(watchers[i], joined.watchers[i], changed)
                    &&& cloned(joined.watchers[i].cached(), joined.current[i])
                },
    {
        let ghost given = watchers@;
        let mut watchers = watchers;
        let mut current: Vec<W::Value> = Vec::new();
        let mut i: usize = 0;
        while i < watchers.len()
            invariant
                i <= watchers.len(),
                watchers.len() == given.len(),
                current.len() == i,
                forall|j: int| i <= j < watchers.len() ==> watchers[j] == given[j],
                forall|j: int|
                    #![trigger watchers[j]]
                    0 <= j < i ==> {
                        &&& exists|changed: bool| W::updates(given[j], watchers[j], changed)
                        &&& cloned(watchers[j].cached(), current[j])
                    },
            decreases watchers.len() - i,
        {
            let ghost before = current@;
            assert(watchers[i as int] == given[i as int]);
            let value = watchers[i].get();
            assert(exists|changed: bool|
                W::updates(given[i as int], watchers@[i as int], changed));
            current.push(value);
            assert(forall|j: int| 0 <= j < i ==> current@[j] == before[j]);
            i += 1;
        }
        Join { watchers, current, unreported: false }
    }
}

impl<W: Watcher> Watcher for Join<W> where W::Value: Clone {
    type Value = Vec<W::Value>;

    open spec fn cached(&self) -> Vec<W::Value> {
        self.current
    }

    open spec fn updates(pre: Self, post: Self, changed: bool) -> bool {
        exists|each: Seq<bool>|
            #[trigger] Self::updates_each(pre, post, each) && changed == (pre.unreported
                || each.contains(true))
    }

    open spec fn polls(pre: Self, post: Self, task: Set<Waker>, outcome: Progress) -> bool {
        exists|each: Seq<Progress>|
            #[trigger] Self::polls_each(pre, post, task, each) && outcome == all_progress(each)
    }

    open spec fn answers_connected(&self, answer: bool) -> bool {
        if answer {
            forall|i: int|
                0 <= i < self.watchers.len() ==> (#[trigger] self.watchers[i]).answers_connected(
                    true,
                )
        } else {
            exists|i: int|
                0 <= i < self.watchers.len() && (#[trigger] self.watchers[i]).answers_connected(
                    false,
                )
        }
    }

    open spec fn answers_changed(&self, answer: bool) -> bool {
        if answer {
            self.unreported || exists|i: int|
                0 <= i < self.watchers.len() && (#[trigger] self.watchers[i]).answers_changed(true)
        } else {
            !self.unreported && forall|i: int|
                0 <= i < self.watchers.len() ==> (#[trigger] self.watchers[i]).answers_changed(
                    false,
                )
        }
    }

    open spec fn changes_left(&self) -> nat {
        total_left(self.watchers@) + if self.unreported {
            1nat
        } else {
            0nat
        }
    }

    open spec fn has_unreported(&self) -> bool {
        self.unreported || exists|i: int|
            0 <= i < self.pairs() && (#[trigger] self.watchers[i]).has_unreported()
    }

    proof fn law_update(pre: Self, post: Self, changed: bool) {
        let each = choose|each: Seq<bool>|
            #[trigger] Self::updates_each(pre, post, each) && changed == (pre.unreported
                || each.contains(true));
        let reports = Seq::new(pre.watchers@.len(), |i: int| i < each.len() && each[i]);
        assert forall|i: int| 0 <= i < reports.len() implies (
        #[trigger] post.watchers@[i]).changes_left() + (if reports[i] {
            1nat
        } else {
            0nat
        }) <= pre.watchers@[i].changes_left() by {
            if i < each.len() {
                W::law_update(pre.watchers[i], post.watchers[i], each[i]);
            } else {
                assert(post.watchers[i] == pre.watchers[i]);
            }
        }
        lemma_total_left(pre.watchers@, post.watchers@, reports);
        if each.contains(true) {
            let i = choose|i: int| 0 <= i < each.len() && each[i];
            assert(reports[i]);
        }
        assert forall|i: int|
            0 <= i < pre.pairs() && (
            #[trigger] pre.watchers[i]).has_unreported() implies changed by {
            W::law_update(pre.watchers[i], post.watchers[i], each[i]);
        }
        assert forall|i: int| 0 <= i < post.pairs() implies !(
        #[trigger] post.watchers[i]).has_unreported() by {
            W::law_update(pre.watchers[i], post.watchers[i], each[i]);
        }
    }

    proof fn law_poll(pre: Self, post: Self, task: Set<Waker>, outcome: Progress) {
        let each = choose|each: Seq<Progress>|
            #[trigger] Self::polls_each(pre, post, task, each) && outcome == all_progress(each);
        let reports = Seq::new(
            pre.watchers@.len(),
            |i: int| i < each.len() && each[i] is Changed,
        );
        assert forall|i: int| 0 <= i < reports.len() implies (
        #[trigger] post.watchers@[i]).changes_left() + (if reports[i] {
            1nat
        } else {
            0nat
        }) <= pre.watchers@[i].changes_left() by {
            if i < each.len() {
                W::law_poll(pre.watchers[i], post.watchers[i], task, each[i]);
            } else {
                assert(post.watchers[i] == pre.watchers[i]);
            }
        }
        lemma_total_left(pre.watchers@, post.watchers@, reports);
        if each.contains(Progress::Changed) {
            let i = choose|i: int| 0 <= i < each.len() && each[i] == Progress::Changed;
            assert(reports[i]);
        }
        if pre.has_unreported() && !pre.unreported && !(outcome is Changed) {
            let i = choose|i: int|
                0 <= i < pre.pairs() && (#[trigger] pre.watchers[i]).has_unreported();
            if i < each.len() {
                W::law_poll(pre.watchers[i], post.watchers[i], task, each[i]);
                if each[i] is Changed {
                    assert(each[i] == Progress::Changed);
                    assert(post.unreported);
                } else {
                    assert(post.watchers[i].has_unreported());
                }
            } else {
                assert(post.watchers[i] == pre.watchers[i]);
                assert(post.watchers[i].has_unreported());
            }
        }
    }

    fn update(&mut self) -> (changed: bool) {
        let ghost mut each: Seq<bool> = seq![];
        let ghost pre = *self;
        let mut any = false;
        let mut i: usize = 0;
        while i < self.watchers.len() && i < self.current.len()
            invariant
                pre == *old(self),
                self.unreported == pre.unreported,
                Self::same_from(pre, *self, i as int),
                i <= pre.pairs(),
                each.len() == i,
                any == each.contains(true),
                !any ==> self.current == pre.current,
                forall|j: int|
                    #![trigger self.watchers[j]]
                    0 <= j < i ==> {
                        &&& W::updates(pre.watchers[j], self.watchers[j], each[j])
                        &&& crate::combine::follows(
                            pre.current[j],
                            self.watchers[j].cached(),
                            self.current[j],
                            each[j],
                        )
                    },
            decreases self.watchers.len() - i,
        {
            let changed = self.watchers[i].update();
            if changed {
                self.current[i] = self.watchers[i].peek().clone();
                any = true;
            }
            proof {
                let before = each;
                each = each.push(changed);
                assert(changed ==> each[i as int]);
                assert(before.contains(true) ==> each.contains(true)) by {
                    if before.contains(true) {
                        let k = choose|k: int| 0 <= k < before.len() && before[k];
                        assert(each[k]);
                    }
                }
            }
            i += 1;
        }
        let unreported = self.unreported;
        self.unreported = false;
        assert(Self::updates_each(*old(self), *self, each));
        unreported || any
    }

    fn peek(&self) -> (value: &Vec<W::Value>) {
        &self.current
    }

    fn is_connected(&self) -> (connected: bool) {
        let mut i: usize = 0;
        while i < self.watchers.len()
            invariant
                i <= self.watchers.len(),
                forall|j: int|
                    0 <= j < i ==> (#[trigger] self.watchers[j]).answers_connected(true),
            decreases self.watchers.len() - i,
        {
            if !self.watchers[i].is_connected() {
                return false;
            }
            i += 1;
        }
        true
    }

    fn has_changed(&self) -> (changed: bool) {
        if self.unreported {
            return true;
        }
        let mut i: usize = 0;
        while i < self.watchers.len()
            invariant
                i <= self.watchers.len(),
                !self.unreported,
                forall|j: int| 0 <= j < i ==> (#[trigger] self.watchers[j]).answers_changed(false),
            decreases self.watchers.len() - i,
        {
            if self.watchers[i].has_changed() {
                return true;
            }
            i += 1;
        }
        false
    }

    fn poll_updated(&mut self, cx: &mut Context<'_>) -> (outcome: Poll<Result<(), Disconnected>>) {
        let ghost mut each: Seq<Progress> = seq![];
        let ghost pre = *self;
        let ghost task = crate::sync::task_of(*cx);
        let mut any = false;
        let mut i: usize = 0;
        while i < self.watchers.len() && i < self.current.len()
            invariant
                pre == *old(self),
                task == crate::sync::task_of(*old(cx)),
                task == crate::sync::task_of(*cx),
                self.unreported == pre.unreported,
                Self::same_from(pre, *self, i as int),
                i <= pre.pairs(),
                each.len() == i,
                any == each.contains(Progress::Changed),
                !any ==> self.current == pre.current,
                forall|j: int| 0 <= j < i ==> !(#[trigger] each[j] is Gone),
                forall|j: int|
                    #![trigger self.watchers[j]]
                    0 <= j < i ==> {
                        &&& W::polls(pre.watchers[j], self.watchers[j], task, each[j])
                        &&& crate::combine::follows(
                            pre.current[j],
                            self.watchers[j].cached(),
                            self.current[j],
                            each[j] is Changed,
                        )
                    },
            decreases self.watchers.len() - i,
        {
            let outcome = self.watchers[i].poll_updated(cx);
            let ghost before = each;
            proof {
                each = each.push(crate::watcher::progress(outcome));
                assert(each.last() == crate::watcher::progress(outcome));
                assert(each[i as int] == crate::watcher::progress(outcome));
                assert(forall|j: int| 0 <= j < i ==> each[j] == before[j]);
                if before.contains(Progress::Changed) {
                    let k = choose|k: int|
                        0 <= k < before.len() && before[k] == Progress::Changed;
                    assert(each[k] == Progress::Changed);
                }
            }
            match outcome {
                Poll::Ready(Ok(())) => {
                    self.current[i] = self.watchers[i].peek().clone();
                    any = true;
                },
                Poll::Ready(Err(error)) => {
                    if any {
                        self.unreported = true;
                    }
                    assert(Self::polls_each(*old(self), *self, task, each));
                    return Poll::Ready(Err(error));
                },
                Poll::Pending => {},
            }
            i += 1;
        }
        if any {
            self.unreported = false;
        }
        assert(Self::polls_each(*old(self), *self, task, each));
        if any {
            Poll::Ready(Ok(()))
        } else {
            Poll::Pending
        }
    }
}

impl<W: Watcher> Clone for Join<W> where W::Value: Clone {
    fn clone(&self) -> (copy: Self)
        ensures
            copy.watchers.len() == self.watchers.len(),
            copy.current.len() == self.current.len(),
            copy.unreported == self.unreported,
            forall|i: int|
                #![trigger copy.watchers[i]]
                0 <= i < self.watchers.len() ==> cloned(self.watchers[i], copy.watchers[i]),
            forall|i: int|
                #![trigger copy.current[i]]
                0 <= i < self.current.len() ==> cloned(self.current[i], copy.current[i]),
    {
        Join {
            watchers: self.watchers.clone(),
            current: self.current.clone(),
            unreported: self.unreported,
        }
    }
}

} // verus!
