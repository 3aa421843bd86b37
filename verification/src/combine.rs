//! Watchers made of other watchers.
use std::sync::Arc;
use std::task::{Context, Poll, Waker};

use vstd::prelude::*;

use crate::error::Disconnected;
use crate::watcher::{Progress, Watcher};

verus! {

/// A function that can be called on every value. Its clones are the same function.
#[verifier::reject_recursive_types(V)]
#[verifier::reject_recursive_types(U)]
#[verifier::reject_recursive_types(F)]
pub struct TotalFn<V, U, F: Fn(&V) -> U> {
    f: Arc<F>,
    signature: Ghost<Option<(V, U)>>,
}

impl<V, U, F: Fn(&V) -> U> TotalFn<V, U, F> {
    #[verifier::type_invariant]
    spec fn is_total(self) -> bool {
        forall|value: &V| call_requires(*self.f, (value,))
    }

    /// The function itself.
    pub closed spec fn f(self) -> F {
        *self.f
    }

    /// Wraps a function that can be called on every value.
    pub fn new(f: F) -> (total: Self)
        requires
            forall|value: &V| call_requires(f, (value,)),
        ensures
            total.f() == f,
    {
        TotalFn { f: Arc::new(f), signature: Ghost(None) }
    }

    /// Calls the function.
    pub fn call(&self, value: &V) -> (result: U)
        ensures
            call_ensures(self.f(), (value,), result),
    {
        proof {
            use_type_invariant(self);
        }
        (*self.f)(value)
    }
}

impl<V, U, F: Fn(&V) -> U> Clone for TotalFn<V, U, F> {
    fn clone(&self) -> (copy: Self)
        ensures
            copy == *self,
    {
        proof {
            use_type_invariant(self);
        }
        TotalFn { f: self.f.clone(), signature: self.signature }
    }
}

/// Watcher combinator that maps values through a function.
#[verifier::reject_recursive_types(W)]
#[verifier::reject_recursive_types(U)]
#[verifier::reject_recursive_types(F)]
pub struct Mapped<W: Watcher, U, F: Fn(&W::Value) -> U> {
    pub watcher: W,
    pub map_fn: TotalFn<W::Value, U, F>,
    pub current: U,
}

impl<W: Watcher, U: Clone, F: Fn(&W::Value) -> U> Clone for Mapped<W, U, F> {
    fn clone(&self) -> (copy: Self)
        ensures
            cloned(self.watcher, copy.watcher),
            copy.map_fn == self.map_fn,
            cloned(self.current, copy.current),
    {
        Mapped {
            watcher: self.watcher.clone(),
            map_fn: self.map_fn.clone(),
            current: self.current.clone(),
        }
    }
}

impl<W, U, F> Mapped<W, U, F> where
    W: Watcher,
    U: Clone + PartialEq,
    F: Fn(&W::Value) -> U,
 {
    /// The inner watcher went from `pre.watcher` to `post.watcher` with a change. The
    /// mapped value follows, and counts as changed unless it compares equal.
    pub open spec fn remaps(pre: Self, post: Self, changed: bool) -> bool {
        exists|new: U|
            {
                &&& #[trigger] call_ensures(pre.map_fn.f(), (&post.watcher.cached(),), new)
                &&& crate::state::eq_answers(new, pre.current, !changed)
                &&& post.current == if changed {
                    new
                } else {
                    pre.current
                }
            }
    }
}

impl<W, U, F> Mapped<W, U, F> where
    W: Watcher,
    U: Clone + PartialEq,
    F: Fn(&W::Value) -> U,
 {
    /// Polling takes the inner watcher from `pre.watcher` to `post.watcher` by `steps`
    /// changes that all map to an equal value.
    pub open spec fn stays_equal(pre: Self, post: Self, task: Set<Waker>, steps: nat) -> bool
        decreases steps,
    {
        if steps == 0 {
            pre == post
        } else {
            exists|before: Self|
                {
                    &&& Self::stays_equal(pre, before, task, (steps - 1) as nat)
                    &&& #[trigger] Self::polls_once(before, post, task, false)
                }
        }
    }

    /// One poll of the inner watcher finds a change, which the mapped value follows.
    pub open spec fn polls_once(pre: Self, post: Self, task: Set<Waker>, changed: bool) -> bool {
        &&& W::polls(pre.watcher, post.watcher, task, Progress::Changed)
        &&& post.map_fn == pre.map_fn
        &&& Self::remaps(pre, post, changed)
    }

    /// The last poll of the inner watcher comes to `outcome`. The mapped value follows where
    /// there was a change.
    pub open spec fn ends_with(pre: Self, post: Self, task: Set<Waker>, outcome: Progress) -> bool {
        if outcome is Changed {
            Self::polls_once(pre, post, task, true)
        } else {
            &&& W::polls(pre.watcher, post.watcher, task, outcome)
            &&& post.map_fn == pre.map_fn
            &&& post.current == pre.current
        }
    }

    /// Once the inner watcher is as `latest`, by an update that reported `moved`, the mapped value
    /// may be found to be another one, or not, as `answer` says.
    pub open spec fn would_change(self, latest: W, moved: bool, answer: bool) -> bool {
        if moved {
            exists|new: U|
                #[trigger] call_ensures(self.map_fn.f(), (&latest.cached(),), new)
                    && crate::state::eq_answers(new, self.current, !answer)
        } else {
            !answer
        }
    }
}

impl<W, U, F> Watcher for Mapped<W, U, F> where
    W: Watcher,
    U: Clone + PartialEq,
    F: Fn(&W::Value) -> U,
 {
    type Value = U;

    open spec fn cached(&self) -> U {
        self.current
    }

    open spec fn updates(pre: Self, post: Self, changed: bool) -> bool {
        &&& post.map_fn == pre.map_fn
        &&& {
            ||| {
                &&& W::updates(pre.watcher, post.watcher, true)
                &&& Self::remaps(pre, post, changed)
            }
            ||| {
                &&& W::updates(pre.watcher, post.watcher, false)
                &&& !changed
                &&& post.current == pre.current
            }
        }
    }

    open spec fn polls(pre: Self, post: Self, task: Set<Waker>, outcome: Progress) -> bool {
        exists|steps: nat, before: Self|
            {
                &&& #[trigger] Self::stays_equal(pre, before, task, steps)
                &&& Self::ends_with(before, post, task, outcome)
            }
    }

    open spec fn answers_connected(&self, answer: bool) -> bool {
        self.watcher.answers_connected(answer)
    }

    /// A clone of the inner watcher is updated, and what the function makes of its value is
    /// compared to the mapped value.
    open spec fn answers_changed(&self, answer: bool) -> bool {
        exists|inner: W, latest: W, moved: bool|
            #![trigger cloned(self.watcher, inner), W::updates(inner, latest, moved)]
            cloned(self.watcher, inner) && W::updates(inner, latest, moved) && self.would_change(
                latest,
                moved,
                answer,
            )
    }

    open spec fn changes_left(&self) -> nat {
        self.watcher.changes_left()
    }

    open spec fn has_unreported(&self) -> bool {
        false
    }

    proof fn law_update(pre: Self, post: Self, changed: bool) {
        if W::updates(pre.watcher, post.watcher, true) {
            W::law_update(pre.watcher, post.watcher, true);
        } else {
            W::law_update(pre.watcher, post.watcher, false);
        }
    }

    proof fn law_poll(pre: Self, post: Self, task: Set<Waker>, outcome: Progress) {
        let (steps, before) = choose|steps: nat, before: Self|
            {
                &&& #[trigger] Self::stays_equal(pre, before, task, steps)
                &&& Self::ends_with(before, post, task, outcome)
            };
        lemma_stays_equal(pre, before, task, steps);
        W::law_poll(before.watcher, post.watcher, task, outcome);
    }

    fn update(&mut self) -> (changed: bool) {
        if self.watcher.update() {
            let new = self.map_fn.call(self.watcher.peek());
            if !(new == self.current) {
                self.current = new;
                return true;
            }
        }
        false
    }

    fn peek(&self) -> (value: &U) {
        &self.current
    }

    fn is_connected(&self) -> (connected: bool) {
        self.watcher.is_connected()
    }

    fn has_changed(&self) -> (changed: bool) {
        let mut ahead = self.watcher.clone();
        let ghost inner = ahead;
        let moved = ahead.update();
        if moved {
            let new = self.map_fn.call(ahead.peek());
            let same = new == self.current;
            assert(call_ensures(self.map_fn.f(), (&ahead.cached(),), new));
            assert(self.would_change(ahead, moved, !same));
            assert(cloned(self.watcher, inner));
            !same
        } else {
            assert(self.would_change(ahead, moved, false));
            assert(cloned(self.watcher, inner));
            false
        }
    }

    fn poll_updated(&mut self, cx: &mut Context<'_>) -> (outcome: Poll<Result<(), Disconnected>>) {
        let ghost pre = *self;
        let ghost task = crate::sync::task_of(*cx);
        let ghost mut steps: nat = 0;
        loop
            invariant
                pre == *old(self),
                task == crate::sync::task_of(*old(cx)),
                task == crate::sync::task_of(*cx),
                self.map_fn == pre.map_fn,
                Self::stays_equal(pre, *self, task, steps),
            decreases self.watcher.changes_left(),
        {
            let ghost before = *self;
            match self.watcher.poll_updated(cx) {
                Poll::Ready(Ok(())) => {
                    proof {
                        W::law_poll(before.watcher, self.watcher, task, Progress::Changed);
                    }
                    let new = self.map_fn.call(self.watcher.peek());
                    if !(new == self.current) {
                        self.current = new;
                        assert(Self::ends_with(before, *self, task, Progress::Changed));
                        return Poll::Ready(Ok(()));
                    }
                    proof {
                        assert(Self::polls_once(before, *self, task, false));
                        steps = steps + 1;
                    }
                },
                Poll::Ready(Err(error)) => return Poll::Ready(Err(error)),
                Poll::Pending => return Poll::Pending,
            }
        }
    }
}

/// Changes that map to equal values leave the mapped value and the function as they
/// were, and use up changes of the inner watcher.
proof fn lemma_stays_equal<W, U, F>(
    pre: Mapped<W, U, F>,
    post: Mapped<W, U, F>,
    task: Set<Waker>,
    steps: nat,
) where W: Watcher, U: Clone + PartialEq, F: Fn(&W::Value) -> U
    requires
        Mapped::<W, U, F>::stays_equal(pre, post, task, steps),
    ensures
        post.current == pre.current,
        post.map_fn == pre.map_fn,
        post.watcher.changes_left() + steps <= pre.watcher.changes_left(),
    decreases steps,
{
    if steps > 0 {
        let before = choose|before: Mapped<W, U, F>|
            {
                &&& Mapped::<W, U, F>::stays_equal(pre, before, task, (steps - 1) as nat)
                &&& #[trigger] Mapped::<W, U, F>::polls_once(before, post, task, false)
            };
        lemma_stays_equal(pre, before, task, (steps - 1) as nat);
        W::law_poll(before.watcher, post.watcher, task, Progress::Changed);
    }
}

/// Watchers that can be paired with other watchers.
pub trait Pair: Watcher {
    /// Combines this watcher with another, yielding tuples.
    fn and<W: Watcher>(self, other: W) -> (both: And<Self, W>) where
        Self::Value: Clone,
        W::Value: Clone,
        ensures
            exists|changed: bool| Self::updates(self, both.a, changed),
            exists|changed: bool| W::updates(other, both.b, changed),
            cloned(both.a.cached(), both.current.0),
            cloned(both.b.cached(), both.current.1),
            !both.unreported,
    ;
}

impl<A: Watcher> Pair for A {
    fn and<W: Watcher>(self, other: W) -> (both: And<Self, W>) where
        Self::Value: Clone,
        W::Value: Clone,
     {
        And::new(self, other)
    }
}

/// Watcher combinator that combines two watchers into a tuple.
pub struct And<A: Watcher, B: Watcher> {
    pub a: A,
    pub b: B,
    pub current: (A::Value, B::Value),
    /// A poll took in a change that it could not report, since the other side was gone.
    pub unreported: bool,
}

impl<A: Watcher, B: Watcher> And<A, B> where A::Value: Clone, B::Value: Clone {
    /// Combines two watchers, brought up to date.
    pub fn new(a: A, b: B) -> (both: Self)
        ensures
            exists|changed: bool| A::updates(a, both.a, changed),
            exists|changed: bool| B::updates(b, both.b, changed),
            cloned(both.a.cached(), both.current.0),
            cloned(both.b.cached(), both.current.1),
            !both.unreported,
    {
        let ghost (given_a, given_b) = (a, b);
        let mut a = a;
        let mut b = b;
        let first = a.get();
        let second = b.get();
        let ghost changed_a = choose|changed: bool| A::updates(given_a, a, changed);
        let ghost changed_b = choose|changed: bool| B::updates(given_b, b, changed);
        let both = And { a, b, current: (first, second), unreported: false };
        assert(A::updates(given_a, both.a, changed_a));
        assert(B::updates(given_b, both.b, changed_b));
        both
    }
}

impl<A: Watcher, B: Watcher> Clone for And<A, B> where A::Value: Clone, B::Value: Clone {
    fn clone(&self) -> (copy: Self)
        ensures
            cloned(self.a, copy.a),
            cloned(self.b, copy.b),
            cloned(self.current.0, copy.current.0),
            cloned(self.current.1, copy.current.1),
            copy.unreported == self.unreported,
    {
        And {
            a: self.a.clone(),
            b: self.b.clone(),
            current: (self.current.0.clone(), self.current.1.clone()),
            unreported: self.unreported,
        }
    }
}

/// A cached value goes from `before` to `after`: it follows `latest` by a clone if
/// there was a change, and stays if not.
pub open spec fn follows<T: Clone>(before: T, latest: T, after: T, changed: bool) -> bool {
    if changed {
        cloned(latest, after)
    } else {
        after == before
    }
}

/// What polling two watchers comes to. That one is gone counts most, then a change.
pub open spec fn both_progress(a: Progress, b: Progress) -> Progress {
    if a is Gone || b is Gone {
        Progress::Gone
    } else if a is Waiting && b is Waiting {
        Progress::Waiting
    } else {
        Progress::Changed
    }
}

/// Whether a change is still to be reported after polling, which took one in if `taken_in`.
pub open spec fn keeps_unreported(before: bool, outcome: Progress, taken_in: bool) -> bool {
    match outcome {
        Progress::Changed => false,
        Progress::Gone => before || taken_in,
        Progress::Waiting => before,
    }
}

impl<A: Watcher, B: Watcher> And<A, B> where A::Value: Clone, B::Value: Clone {
    /// An update finds `changed_a` on the one side and `changed_b` on the other. Both
    /// values are taken anew as soon as one of them has changed, or a change was not reported yet.
    pub open spec fn updates_both(pre: Self, post: Self, changed_a: bool, changed_b: bool) -> bool {
        &&& A::updates(pre.a, post.a, changed_a)
        &&& B::updates(pre.b, post.b, changed_b)
        &&& if pre.unreported || changed_a || changed_b {
            &&& cloned(post.a.cached(), post.current.0)
            &&& cloned(post.b.cached(), post.current.1)
        } else {
            post.current == pre.current
        }
        &&& !post.unreported
    }

    /// Polling comes to `a` on the one side and to `b` on the other. Each value follows its
    /// own watcher where that one has changed. So it does where the other side is gone: the
    /// change is then still to be reported.
    pub open spec fn polls_both(
        pre: Self,
        post: Self,
        task: Set<Waker>,
        a: Progress,
        b: Progress,
    ) -> bool {
        &&& A::polls(pre.a, post.a, task, a)
        &&& B::polls(pre.b, post.b, task, b)
        &&& follows(pre.current.0, post.a.cached(), post.current.0, a is Changed)
        &&& follows(pre.current.1, post.b.cached(), post.current.1, b is Changed)
        &&& post.unreported == keeps_unreported(
            pre.unreported,
            both_progress(a, b),
            a is Changed || b is Changed,
        )
    }
}

impl<A: Watcher, B: Watcher> Watcher for And<A, B> where A::Value: Clone, B::Value: Clone {
    type Value = (A::Value, B::Value);

    open spec fn cached(&self) -> (A::Value, B::Value) {
        self.current
    }

    open spec fn updates(pre: Self, post: Self, changed: bool) -> bool {
        exists|changed_a: bool, changed_b: bool|
            #[trigger] Self::updates_both(pre, post, changed_a, changed_b) && changed == (
            pre.unreported || changed_a || changed_b)
    }

    open spec fn polls(pre: Self, post: Self, task: Set<Waker>, outcome: Progress) -> bool {
        exists|a: Progress, b: Progress|
            #[trigger] Self::polls_both(pre, post, task, a, b) && outcome == both_progress(a, b)
    }

    open spec fn answers_connected(&self, answer: bool) -> bool {
        if answer {
            self.a.answers_connected(true) && self.b.answers_connected(true)
        } else {
            self.a.answers_connected(false) || self.b.answers_connected(false)
        }
    }

    open spec fn answers_changed(&self, answer: bool) -> bool {
        if answer {
            self.unreported || self.a.answers_changed(true) || self.b.answers_changed(true)
        } else {
            !self.unreported && self.a.answers_changed(false) && self.b.answers_changed(false)
        }
    }

    open spec fn changes_left(&self) -> nat {
        self.a.changes_left() + self.b.changes_left() + if self.unreported {
            1nat
        } else {
            0nat
        }
    }

    open spec fn has_unreported(&self) -> bool {
        self.unreported || self.a.has_unreported() || self.b.has_unreported()
    }

    proof fn law_update(pre: Self, post: Self, changed: bool) {
        let (changed_a, changed_b) = choose|changed_a: bool, changed_b: bool|
            #[trigger] Self::updates_both(pre, post, changed_a, changed_b) && changed == (
            pre.unreported || changed_a || changed_b);
        A::law_update(pre.a, post.a, changed_a);
        B::law_update(pre.b, post.b, changed_b);
    }

    proof fn law_poll(pre: Self, post: Self, task: Set<Waker>, outcome: Progress) {
        let (a, b) = choose|a: Progress, b: Progress|
            #[trigger] Self::polls_both(pre, post, task, a, b) && outcome == both_progress(a, b);
        A::law_poll(pre.a, post.a, task, a);
        B::law_poll(pre.b, post.b, task, b);
    }

    fn update(&mut self) -> (changed: bool) {
        let changed_a = self.a.update();
        let changed_b = self.b.update();
        let changed = self.unreported || changed_a || changed_b;
        if changed {
            self.current = (self.a.peek().clone(), self.b.peek().clone());
        }
        self.unreported = false;
        assert(Self::updates_both(*old(self), *self, changed_a, changed_b));
        changed
    }

    fn peek(&self) -> (value: &(A::Value, B::Value)) {
        &self.current
    }

    fn is_connected(&self) -> (connected: bool) {
        self.a.is_connected() && self.b.is_connected()
    }

    fn has_changed(&self) -> (changed: bool) {
        self.unreported || self.a.has_changed() || self.b.has_changed()
    }

    fn poll_updated(&mut self, cx: &mut Context<'_>) -> (outcome: Poll<Result<(), Disconnected>>) {
        let poll_a = self.a.poll_updated(cx);
        let poll_b = self.b.poll_updated(cx);
        let ghost (a, b) = (crate::watcher::progress(poll_a), crate::watcher::progress(poll_b));

        let mut taken_in = false;
        if let Poll::Ready(Ok(())) = poll_a {
            self.current.0 = self.a.peek().clone();
            taken_in = true;
        }
        if let Poll::Ready(Ok(())) = poll_b {
            self.current.1 = self.b.peek().clone();
            taken_in = true;
        }
        let outcome = match (poll_a, poll_b) {
            (Poll::Ready(Err(error)), _) => Poll::Ready(Err(error)),
            (_, Poll::Ready(Err(error))) => Poll::Ready(Err(error)),
            (Poll::Pending, Poll::Pending) => Poll::Pending,
            _ => Poll::Ready(Ok(())),
        };
        if taken_in {
            self.unreported = matches!(outcome, Poll::Ready(Err(_)));
        }
        assert(Self::polls_both(*old(self), *self, crate::sync::task_of(*old(cx)), a, b));
        outcome
    }
}

} // verus!
