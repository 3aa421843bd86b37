//! What holds of watchers made of other watchers, from one step to the next.
use std::task::Waker;

use vstd::prelude::*;

use crate::combine::{And, Mapped};
use crate::join::Join;
use crate::watcher::{Progress, Watcher};

verus! {

/// The mapped value is what the function makes of the watched value, or compares equal to
/// it.
pub open spec fn mapped_in_step<W, U, F>(mapped: Mapped<W, U, F>) -> bool where
    W: Watcher,
    U: Clone + PartialEq,
    F: Fn(&W::Value) -> U,
 {
    exists|new: U|
        {
            &&& #[trigger] call_ensures(mapped.map_fn.f(), (&mapped.watcher.cached(),), new)
            &&& mapped.current == new || crate::state::eq_answers(new, mapped.current, true)
        }
}

/// A mapped watcher starts out in step: its value is what the function made of the watched
/// value.
pub proof fn law_mapped_starts_in_step<W, U, F>(mapped: Mapped<W, U, F>) where
    W: Watcher,
    U: Clone + PartialEq,
    F: Fn(&W::Value) -> U,

    requires
        call_ensures(mapped.map_fn.f(), (&mapped.watcher.cached(),), mapped.current),
    ensures
        mapped_in_step(mapped),
{
}

/// A mapped watcher is in step, or its inner watcher has taken in a change that it has not
/// reported yet.
pub open spec fn mapped_keeps_up<W, U, F>(mapped: Mapped<W, U, F>) -> bool where
    W: Watcher,
    U: Clone + PartialEq,
    F: Fn(&W::Value) -> U,
 {
    mapped_in_step(mapped) || mapped.watcher.has_unreported()
}

/// An update brings a mapped watcher in step. It reports a change exactly if the inner watcher
/// does and what the function makes of the new value does not compare equal to the mapped value.
pub proof fn law_mapped_update_brings_in_step<W, U, F>(
    pre: Mapped<W, U, F>,
    post: Mapped<W, U, F>,
    changed: bool,
) -> (inner: bool) where W: Watcher, U: Clone + PartialEq, F: Fn(&W::Value) -> U
    requires
        mapped_keeps_up(pre),
        Mapped::<W, U, F>::updates(pre, post, changed),
    ensures
        mapped_in_step(post),
        W::updates(pre.watcher, post.watcher, inner),
        inner ==> Mapped::<W, U, F>::remaps(pre, post, changed),
        !inner ==> !changed,
        changed ==> crate::state::eq_answers(post.current, pre.current, false),
        !changed ==> post.current == pre.current,
{
    let inner = W::updates(pre.watcher, post.watcher, true) && Mapped::<W, U, F>::remaps(
        pre,
        post,
        changed,
    );
    if !inner {
        W::law_update(pre.watcher, post.watcher, false);
    }
    inner
}

/// Changes that map to equal values let a mapped watcher keep up.
proof fn lemma_stays_in_step<W, U, F>(
    pre: Mapped<W, U, F>,
    post: Mapped<W, U, F>,
    task: Set<Waker>,
    steps: nat,
) where W: Watcher, U: Clone + PartialEq, F: Fn(&W::Value) -> U
    requires
        mapped_keeps_up(pre),
        Mapped::<W, U, F>::stays_equal(pre, post, task, steps),
    ensures
        mapped_keeps_up(post),
        post.current == pre.current,
    decreases steps,
{
    if steps > 0 {
        let before = choose|before: Mapped<W, U, F>|
            {
                &&& Mapped::<W, U, F>::stays_equal(pre, before, task, (steps - 1) as nat)
                &&& #[trigger] Mapped::<W, U, F>::polls_once(before, post, task, false)
            };
        lemma_stays_in_step(pre, before, task, (steps - 1) as nat);
    }
}

/// Polling lets a mapped watcher keep up, also where its source is gone. It comes to a change
/// exactly where the mapped value does not compare equal to the one before, and leaves the mapped
/// value alone otherwise.
pub proof fn law_mapped_poll_keeps_up<W, U, F>(
    pre: Mapped<W, U, F>,
    post: Mapped<W, U, F>,
    task: Set<Waker>,
    outcome: Progress,
) where W: Watcher, U: Clone + PartialEq, F: Fn(&W::Value) -> U
    requires
        mapped_keeps_up(pre),
        Mapped::<W, U, F>::polls(pre, post, task, outcome),
    ensures
        mapped_keeps_up(post),
        outcome is Changed ==> mapped_in_step(post) && crate::state::eq_answers(
            post.current,
            pre.current,
            false,
        ),
        !(outcome is Changed) ==> post.current == pre.current,
{
    let (steps, before) = choose|steps: nat, before: Mapped<W, U, F>|
        {
            &&& #[trigger] Mapped::<W, U, F>::stays_equal(pre, before, task, steps)
            &&& Mapped::<W, U, F>::ends_with(before, post, task, outcome)
        };
    lemma_stays_in_step(pre, before, task, steps);
    W::law_poll(before.watcher, post.watcher, task, outcome);
}

/// Both values of a pair are clones of what their watchers saw last.
pub open spec fn pair_in_step<A: Watcher, B: Watcher>(both: And<A, B>) -> bool where
    A::Value: Clone,
    B::Value: Clone,
 {
    &&& cloned(both.a.cached(), both.current.0)
    &&& cloned(both.b.cached(), both.current.1)
}

/// Each value of a pair is a clone of what its watcher saw last, or that watcher has taken in a
/// change that it has not reported yet.
pub open spec fn pair_keeps_up<A: Watcher, B: Watcher>(both: And<A, B>) -> bool where
    A::Value: Clone,
    B::Value: Clone,
 {
    &&& cloned(both.a.cached(), both.current.0) || both.a.has_unreported()
    &&& cloned(both.b.cached(), both.current.1) || both.b.has_unreported()
}

/// An update brings a pair in step. It reports a change exactly when one of the two sides
/// does, or a change is left that a poll took in and could not report.
pub proof fn law_pair_update_brings_in_step<A: Watcher, B: Watcher>(
    pre: And<A, B>,
    post: And<A, B>,
    changed: bool,
) -> (sides: (bool, bool)) where A::Value: Clone, B::Value: Clone
    requires
        pair_keeps_up(pre),
        And::<A, B>::updates(pre, post, changed),
    ensures
        pair_in_step(post),
        A::updates(pre.a, post.a, sides.0),
        B::updates(pre.b, post.b, sides.1),
        changed == (pre.unreported || sides.0 || sides.1),
        !post.unreported,
{
    let (changed_a, changed_b) = choose|changed_a: bool, changed_b: bool|
        #[trigger] And::<A, B>::updates_both(pre, post, changed_a, changed_b) && changed == (
        pre.unreported || changed_a || changed_b);
    A::law_update(pre.a, post.a, changed_a);
    B::law_update(pre.b, post.b, changed_b);
    (changed_a, changed_b)
}

/// Polling lets a pair keep up, also where one of the two sides is gone.
pub proof fn law_pair_poll_keeps_up<A: Watcher, B: Watcher>(
    pre: And<A, B>,
    post: And<A, B>,
    task: Set<Waker>,
    outcome: Progress,
) where A::Value: Clone, B::Value: Clone
    requires
        pair_keeps_up(pre),
        And::<A, B>::polls(pre, post, task, outcome),
    ensures
        pair_keeps_up(post),
{
    let (a, b) = choose|a: Progress, b: Progress|
        #[trigger] And::<A, B>::polls_both(pre, post, task, a, b) && outcome
            == crate::combine::both_progress(a, b);
    A::law_poll(pre.a, post.a, task, a);
    B::law_poll(pre.b, post.b, task, b);
}

/// Each value of a join is a clone of what the watcher in its place saw last.
pub open spec fn join_in_step<W: Watcher>(joined: Join<W>) -> bool where W::Value: Clone {
    &&& joined.watchers.len() == joined.current.len()
    &&& forall|i: int|
        #![trigger joined.watchers[i]]
        0 <= i < joined.watchers.len() ==> cloned(joined.watchers[i].cached(), joined.current[i])
}

/// Each value of a join is a clone of what the watcher in its place saw last, or that watcher has
/// taken in a change that it has not reported yet.
pub open spec fn join_keeps_up<W: Watcher>(joined: Join<W>) -> bool where W::Value: Clone {
    &&& joined.watchers.len() == joined.current.len()
    &&& forall|i: int|
        #![trigger joined.watchers[i]]
        0 <= i < joined.watchers.len() ==> cloned(joined.watchers[i].cached(), joined.current[i])
            || joined.watchers[i].has_unreported()
}

/// An update brings a join in step. It updates each watcher, and reports a change exactly if one
/// of them does, or a change is left that a poll took in and could not report.
pub proof fn law_join_update_brings_in_step<W: Watcher>(
    pre: Join<W>,
    post: Join<W>,
    changed: bool,
) -> (each: Seq<bool>) where W::Value: Clone
    requires
        join_keeps_up(pre),
        Join::<W>::updates(pre, post, changed),
    ensures
        join_in_step(post),
        each.len() == pre.watchers.len(),
        post.watchers.len() == pre.watchers.len(),
        forall|i: int|
            #![trigger post.watchers[i]]
            0 <= i < each.len() ==> W::updates(pre.watchers[i], post.watchers[i], each[i]),
        changed == (pre.unreported || each.contains(true)),
        !post.unreported,
{
    let each = choose|each: Seq<bool>|
        #[trigger] Join::<W>::updates_each(pre, post, each) && changed == (pre.unreported
            || each.contains(true));
    assert forall|i: int| #![trigger post.watchers[i]] 0 <= i < post.watchers.len() implies cloned(
        post.watchers[i].cached(),
        post.current[i],
    ) by {
        assert(cloned(pre.watchers[i].cached(), pre.current[i])
            || pre.watchers[i].has_unreported());
        W::law_update(pre.watchers[i], post.watchers[i], each[i]);
    }
    each
}

/// Polling lets a join keep up, also where one of its sources is gone.
pub proof fn law_join_poll_keeps_up<W: Watcher>(
    pre: Join<W>,
    post: Join<W>,
    task: Set<Waker>,
    outcome: Progress,
) where W::Value: Clone
    requires
        join_keeps_up(pre),
        Join::<W>::polls(pre, post, task, outcome),
    ensures
        join_keeps_up(post),
{
    let each = choose|each: Seq<Progress>|
        #[trigger] Join::<W>::polls_each(pre, post, task, each) && outcome
            == crate::join::all_progress(each);
    assert forall|i: int| #![trigger post.watchers[i]] 0 <= i < post.watchers.len() implies cloned(
        post.watchers[i].cached(),
        post.current[i],
    ) || post.watchers[i].has_unreported() by {
        assert(cloned(pre.watchers[i].cached(), pre.current[i])
            || pre.watchers[i].has_unreported());
        if i < each.len() {
            W::law_poll(pre.watchers[i], post.watchers[i], task, each[i]);
        } else {
            assert(post.current[i] == pre.current[i]);
        }
    }
}

/// A pair is connected only while both of its sides are. Where one of them can only answer that it
/// is not, as when its source is gone, the pair can only answer that; where both can only answer
/// that they are, so can the pair.
pub proof fn law_pair_is_connected_while_both_are<A: Watcher, B: Watcher>(both: And<A, B>) where
    A::Value: Clone,
    B::Value: Clone,

    ensures
        (forall|answer: bool| #[trigger] both.a.answers_connected(answer) ==> !answer) ==> (forall|
            answer: bool,
        | #[trigger] both.answers_connected(answer) ==> !answer),
        (forall|answer: bool| #[trigger] both.b.answers_connected(answer) ==> !answer) ==> (forall|
            answer: bool,
        | #[trigger] both.answers_connected(answer) ==> !answer),
        (forall|answer: bool| #[trigger] both.a.answers_connected(answer) ==> answer) && (forall|
            answer: bool,
        | #[trigger] both.b.answers_connected(answer) ==> answer) ==> (forall|answer: bool|
            #[trigger] both.answers_connected(answer) ==> answer),
        both.answers_connected(true) ==> both.a.answers_connected(true)
            && both.b.answers_connected(true),
        both.answers_connected(false) ==> both.a.answers_connected(false)
            || both.b.answers_connected(false),
{
}

/// A pair has a change pending exactly while one of its sides has, or a change is left that a poll
/// took in and could not report.
pub proof fn law_pair_has_changed_when_a_side_has<A: Watcher, B: Watcher>(both: And<A, B>) where
    A::Value: Clone,
    B::Value: Clone,

    ensures
        both.unreported ==> (forall|answer: bool| #[trigger]
            both.answers_changed(answer) ==> answer),
        (forall|answer: bool| #[trigger] both.a.answers_changed(answer) ==> answer) ==> (forall|
            answer: bool,
        | #[trigger] both.answers_changed(answer) ==> answer),
        (forall|answer: bool| #[trigger] both.b.answers_changed(answer) ==> answer) ==> (forall|
            answer: bool,
        | #[trigger] both.answers_changed(answer) ==> answer),
        !both.unreported && (forall|answer: bool| #[trigger]
            both.a.answers_changed(answer) ==> !answer) && (forall|answer: bool| #[trigger]
            both.b.answers_changed(answer) ==> !answer) ==> (forall|answer: bool| #[trigger]
            both.answers_changed(answer) ==> !answer),
        both.answers_changed(true) ==> both.unreported || both.a.answers_changed(true)
            || both.b.answers_changed(true),
        both.answers_changed(false) ==> !both.unreported && both.a.answers_changed(false)
            && both.b.answers_changed(false),
{
}

/// Polling a pair polls both sides. It fails exactly if a side does, and has to wait exactly if
/// both have to. The value of a side follows where that side has changed, and stays where not.
pub proof fn law_pair_poll_polls_both<A: Watcher, B: Watcher>(
    pre: And<A, B>,
    post: And<A, B>,
    task: Set<Waker>,
    outcome: Progress,
) -> (sides: (Progress, Progress)) where A::Value: Clone, B::Value: Clone
    requires
        And::<A, B>::polls(pre, post, task, outcome),
    ensures
        A::polls(pre.a, post.a, task, sides.0),
        B::polls(pre.b, post.b, task, sides.1),
        outcome is Gone <==> sides.0 is Gone || sides.1 is Gone,
        outcome is Waiting <==> sides.0 is Waiting && sides.1 is Waiting,
        sides.0 is Changed ==> cloned(post.a.cached(), post.current.0),
        !(sides.0 is Changed) ==> post.current.0 == pre.current.0,
        sides.1 is Changed ==> cloned(post.b.cached(), post.current.1),
        !(sides.1 is Changed) ==> post.current.1 == pre.current.1,
        outcome is Gone && (sides.0 is Changed || sides.1 is Changed) ==> post.unreported,
        outcome is Changed ==> !post.unreported,
        outcome is Waiting ==> post.unreported == pre.unreported,
{
    choose|a: Progress, b: Progress| #[trigger]
        And::<A, B>::polls_both(pre, post, task, a, b) && outcome == crate::combine::both_progress(
            a,
            b,
        )
}

/// A join is connected only while all of its watchers are. Where one of them can only answer that
/// it is not, the join can only answer that; where all can only answer that they are, so can the
/// join.
pub proof fn law_join_is_connected_while_all_are<W: Watcher>(joined: Join<W>, i: int) where
    W::Value: Clone,

    requires
        0 <= i < joined.watchers.len(),
    ensures
        (forall|own: bool| #[trigger] joined.watchers[i].answers_connected(own) ==> !own) ==> (
        forall|answer: bool| #[trigger] joined.answers_connected(answer) ==> !answer),
        (forall|j: int, own: bool|
            0 <= j < joined.watchers.len() && #[trigger] joined.watchers[j].answers_connected(own)
                ==> own) ==> (forall|answer: bool| #[trigger]
            joined.answers_connected(answer) ==> answer),
        joined.answers_connected(true) ==> joined.watchers[i].answers_connected(true),
        joined.answers_connected(false) ==> exists|j: int|
            0 <= j < joined.watchers.len() && (#[trigger] joined.watchers[j]).answers_connected(
                false,
            ),
{
    if joined.answers_connected(true) {
        assert(joined.watchers[i].answers_connected(true));
    }
}

/// A join has a change pending exactly while one of its watchers has, or a change is left that a
/// poll took in and could not report.
pub proof fn law_join_has_changed_when_one_has<W: Watcher>(joined: Join<W>, i: int) where
    W::Value: Clone,

    requires
        0 <= i < joined.watchers.len(),
    ensures
        joined.unreported ==> (forall|answer: bool| #[trigger]
            joined.answers_changed(answer) ==> answer),
        (forall|own: bool| #[trigger] joined.watchers[i].answers_changed(own) ==> own) ==> (forall|
            answer: bool,
        | #[trigger] joined.answers_changed(answer) ==> answer),
        !joined.unreported && (forall|j: int, own: bool|
            0 <= j < joined.watchers.len() && #[trigger] joined.watchers[j].answers_changed(own)
                ==> !own) ==> (forall|answer: bool| #[trigger]
            joined.answers_changed(answer) ==> !answer),
        joined.answers_changed(false) ==> joined.watchers[i].answers_changed(false),
        joined.answers_changed(true) ==> joined.unreported || exists|j: int|
            0 <= j < joined.watchers.len() && (#[trigger] joined.watchers[j]).answers_changed(true),
{
    if joined.answers_changed(false) {
        assert(joined.watchers[i].answers_changed(false));
    }
}

/// Polling a join polls its watchers one after the other, all of them unless one is gone, and none
/// after that. It fails exactly if one is gone, and otherwise tells a change exactly if one of them
/// does. Each value follows where its watcher has changed, and stays where not.
pub proof fn law_join_poll_polls_all<W: Watcher>(
    pre: Join<W>,
    post: Join<W>,
    task: Set<Waker>,
    outcome: Progress,
) -> (each: Seq<Progress>) where W::Value: Clone
    requires
        pre.watchers.len() == pre.current.len(),
        Join::<W>::polls(pre, post, task, outcome),
    ensures
        each.len() <= pre.watchers.len(),
        forall|i: int|
            #![trigger each[i]]
            0 <= i < each.len() ==> {
                &&& W::polls(pre.watchers[i], post.watchers[i], task, each[i])
                &&& each[i] is Changed ==> cloned(post.watchers[i].cached(), post.current[i])
                &&& !(each[i] is Changed) ==> post.current[i] == pre.current[i]
                &&& each[i] is Gone ==> i == each.len() - 1 && outcome is Gone
                &&& each[i] is Changed && outcome is Gone ==> post.unreported
                &&& each[i] is Changed ==> !(outcome is Waiting)
            },
        forall|i: int|
            each.len() <= i < pre.watchers.len() ==> #[trigger] post.watchers[i] == pre.watchers[i],
        outcome is Gone ==> each.len() > 0 && each.last() is Gone,
        !(outcome is Gone) ==> each.len() == pre.watchers.len(),
        outcome is Changed ==> !post.unreported && exists|i: int|
            0 <= i < each.len() && #[trigger] each[i] is Changed,
        outcome is Waiting ==> post.unreported == pre.unreported,
{
    let each = choose|each: Seq<Progress>| #[trigger]
        Join::<W>::polls_each(pre, post, task, each) && outcome == crate::join::all_progress(each);
    assert forall|i: int| #![trigger each[i]] 0 <= i < each.len() implies {
        &&& W::polls(pre.watchers[i], post.watchers[i], task, each[i])
        &&& each[i] is Changed ==> cloned(post.watchers[i].cached(), post.current[i])
        &&& !(each[i] is Changed) ==> post.current[i] == pre.current[i]
        &&& each[i] is Gone ==> i == each.len() - 1 && outcome is Gone
        &&& each[i] is Changed && outcome is Gone ==> post.unreported
        &&& each[i] is Changed ==> !(outcome is Waiting)
    } by {
        assert(W::polls(pre.watchers[i], post.watchers[i], task, each[i]));
        if each[i] is Gone {
            assert(each[i] == Progress::Gone);
            assert(each.contains(Progress::Gone));
        }
        if each[i] is Changed {
            assert(each[i] == Progress::Changed);
            assert(each.contains(Progress::Changed));
        }
    }
    if outcome is Gone {
        let i = choose|i: int| 0 <= i < each.len() && each[i] == Progress::Gone;
        assert(each[i] is Gone);
    }
    if outcome is Changed {
        let i = choose|i: int| 0 <= i < each.len() && each[i] == Progress::Changed;
        assert(each[i] is Changed);
    }
    if each.len() < pre.watchers.len() {
        assert(each[each.len() - 1] == Progress::Gone);
        assert(each.contains(Progress::Gone));
    }
    each
}

/// A mapped watcher is connected exactly while the watcher that it is made of is, and polling it
/// ends as the last poll of that watcher does.
pub proof fn law_mapped_goes_by_its_watcher<W, U, F>(
    pre: Mapped<W, U, F>,
    post: Mapped<W, U, F>,
    task: Set<Waker>,
    outcome: Progress,
) -> (before: W) where W: Watcher, U: Clone + PartialEq, F: Fn(&W::Value) -> U
    requires
        Mapped::<W, U, F>::polls(pre, post, task, outcome),
    ensures
        forall|answer: bool|
            #![trigger pre.answers_connected(answer)]
            #![trigger pre.watcher.answers_connected(answer)]
            pre.answers_connected(answer) <==> pre.watcher.answers_connected(answer),
        W::polls(before, post.watcher, task, outcome),
        post.map_fn == pre.map_fn,
{
    let (steps, before) = choose|steps: nat, before: Mapped<W, U, F>|
        {
            &&& #[trigger] Mapped::<W, U, F>::stays_equal(pre, before, task, steps)
            &&& Mapped::<W, U, F>::ends_with(before, post, task, outcome)
        };
    lemma_keeps_function(pre, before, task, steps);
    before.watcher
}

/// Changes that map to equal values leave the function alone.
proof fn lemma_keeps_function<W, U, F>(
    pre: Mapped<W, U, F>,
    post: Mapped<W, U, F>,
    task: Set<Waker>,
    steps: nat,
) where W: Watcher, U: Clone + PartialEq, F: Fn(&W::Value) -> U
    requires
        Mapped::<W, U, F>::stays_equal(pre, post, task, steps),
    ensures
        post.map_fn == pre.map_fn,
    decreases steps,
{
    if steps > 0 {
        let before = choose|before: Mapped<W, U, F>|
            {
                &&& Mapped::<W, U, F>::stays_equal(pre, before, task, (steps - 1) as nat)
                &&& #[trigger] Mapped::<W, U, F>::polls_once(before, post, task, false)
            };
        lemma_keeps_function(pre, before, task, (steps - 1) as nat);
    }
}

/// An update of a pair updates both sides. It reports a change if one of them had one, or one was
/// still to be reported, and then takes both values anew. If not, the values stay.
pub proof fn law_pair_update_updates_both<A: Watcher, B: Watcher>(
    pre: And<A, B>,
    post: And<A, B>,
    changed: bool,
) where A::Value: Clone, B::Value: Clone
    requires
        And::<A, B>::updates(pre, post, changed),
    ensures
        exists|changed_a: bool, changed_b: bool|
            {
                &&& #[trigger] A::updates(pre.a, post.a, changed_a)
                &&& #[trigger] B::updates(pre.b, post.b, changed_b)
                &&& changed == (pre.unreported || changed_a || changed_b)
            },
        changed ==> cloned(post.a.cached(), post.current.0) && cloned(
            post.b.cached(),
            post.current.1,
        ),
        !changed ==> post.current == pre.current,
        !post.unreported,
{
    let (changed_a, changed_b) = choose|changed_a: bool, changed_b: bool|
        #[trigger] And::<A, B>::updates_both(pre, post, changed_a, changed_b) && changed == (
        pre.unreported || changed_a || changed_b);
    assert(A::updates(pre.a, post.a, changed_a) && B::updates(pre.b, post.b, changed_b));
}

/// An update of a join updates each watcher. Its value follows the watcher: a clone of the new
/// value if there was a change, and the old one if not. The join reports a change if one of them
/// had one, or one was still to be reported.
pub proof fn law_join_update_updates_all<W: Watcher>(
    pre: Join<W>,
    post: Join<W>,
    changed: bool,
) -> (each: Seq<bool>) where W::Value: Clone
    requires
        Join::<W>::updates(pre, post, changed),
        pre.watchers.len() == pre.current.len(),
    ensures
        post.watchers.len() == pre.watchers.len(),
        post.current.len() == pre.current.len(),
        !post.unreported,
        each.len() == pre.watchers.len(),
        changed <==> pre.unreported || each.contains(true),
        forall|i: int|
            #![trigger each[i]]
            0 <= i < each.len() ==> {
                &&& W::updates(pre.watchers[i], post.watchers[i], each[i])
                &&& each[i] ==> cloned(post.watchers[i].cached(), post.current[i])
                &&& !each[i] ==> post.current[i] == pre.current[i]
            },
{
    let each = choose|each: Seq<bool>|
        #[trigger] Join::<W>::updates_each(pre, post, each) && changed == (pre.unreported
            || each.contains(true));
    assert forall|i: int| #![trigger each[i]] 0 <= i < each.len() implies {
        &&& W::updates(pre.watchers[i], post.watchers[i], each[i])
        &&& each[i] ==> cloned(post.watchers[i].cached(), post.current[i])
        &&& !each[i] ==> post.current[i] == pre.current[i]
    } by {
        let watcher = post.watchers[i];
    }
    each
}

/// An update of a mapped watcher updates the inner one. If that had a change, the function is
/// called on its value: the mapped value becomes the result, with a change to report, unless the
/// two compare equal. Otherwise it stays, and there is nothing to report.
pub proof fn law_mapped_update_maps_what_changed<W, U, F>(
    pre: Mapped<W, U, F>,
    post: Mapped<W, U, F>,
    changed: bool,
) where W: Watcher, U: Clone + PartialEq, F: Fn(&W::Value) -> U
    requires
        Mapped::<W, U, F>::updates(pre, post, changed),
    ensures
        post.map_fn == pre.map_fn,
        !changed ==> post.current == pre.current,
        changed ==> W::updates(pre.watcher, post.watcher, true) && call_ensures(
            pre.map_fn.f(),
            (&post.watcher.cached(),),
            post.current,
        ) && call_ensures(<U as PartialEq>::eq, (&post.current, &pre.current), false),
        !changed ==> {
            ||| W::updates(pre.watcher, post.watcher, false)
            ||| W::updates(pre.watcher, post.watcher, true) && exists|new: U|
                #[trigger] call_ensures(pre.map_fn.f(), (&post.watcher.cached(),), new)
                    && call_ensures(<U as PartialEq>::eq, (&new, &pre.current), true)
        },
{
}

/// The last poll of the inner watcher decides what a poll of a mapped watcher comes to. A change is
/// reported if what the function makes of the new value does not compare equal to the mapped one,
/// and that becomes the mapped value. Otherwise that stays as it was.
pub proof fn law_mapped_poll_maps_what_changed<W, U, F>(
    pre: Mapped<W, U, F>,
    post: Mapped<W, U, F>,
    task: Set<Waker>,
    outcome: Progress,
) where W: Watcher, U: Clone + PartialEq, F: Fn(&W::Value) -> U
    requires
        Mapped::<W, U, F>::polls(pre, post, task, outcome),
    ensures
        post.map_fn == pre.map_fn,
        !(outcome is Changed) ==> post.current == pre.current,
        exists|before: W| #[trigger] W::polls(before, post.watcher, task, outcome),
        outcome is Changed ==> call_ensures(
            pre.map_fn.f(),
            (&post.watcher.cached(),),
            post.current,
        ) && call_ensures(<U as PartialEq>::eq, (&post.current, &pre.current), false),
{
    let (steps, before) = choose|steps: nat, before: Mapped<W, U, F>|
        {
            &&& #[trigger] Mapped::<W, U, F>::stays_equal(pre, before, task, steps)
            &&& Mapped::<W, U, F>::ends_with(before, post, task, outcome)
        };
    law_equal_values_are_skipped_one_by_one(pre, before, task, steps);
    assert(W::polls(before.watcher, post.watcher, task, outcome));
}

/// What a mapped watcher skips while it is polled are changes of the inner watcher, one by one,
/// each of which maps to a value that compares equal to the mapped one.
pub proof fn law_equal_values_are_skipped_one_by_one<W, U, F>(
    pre: Mapped<W, U, F>,
    post: Mapped<W, U, F>,
    task: Set<Waker>,
    steps: nat,
) where W: Watcher, U: Clone + PartialEq, F: Fn(&W::Value) -> U
    requires
        Mapped::<W, U, F>::stays_equal(pre, post, task, steps),
    ensures
        post.map_fn == pre.map_fn,
        post.current == pre.current,
        steps == 0 ==> post == pre,
        steps > 0 ==> exists|before: W, new: U|
            {
                &&& #[trigger] W::polls(before, post.watcher, task, Progress::Changed)
                &&& #[trigger] call_ensures(pre.map_fn.f(), (&post.watcher.cached(),), new)
                &&& call_ensures(<U as PartialEq>::eq, (&new, &pre.current), true)
            },
    decreases steps,
{
    if steps > 0 {
        let before = choose|before: Mapped<W, U, F>|
            {
                &&& Mapped::<W, U, F>::stays_equal(pre, before, task, (steps - 1) as nat)
                &&& #[trigger] Mapped::<W, U, F>::polls_once(before, post, task, false)
            };
        law_equal_values_are_skipped_one_by_one(pre, before, task, (steps - 1) as nat);
        let new = choose|new: U|
            {
                &&& #[trigger] call_ensures(
                    before.map_fn.f(),
                    (&post.watcher.cached(),),
                    new,
                )
                &&& crate::state::eq_answers(new, before.current, true)
                &&& post.current == before.current
            };
        assert(W::polls(before.watcher, post.watcher, task, Progress::Changed));
        assert(call_ensures(pre.map_fn.f(), (&post.watcher.cached(),), new));
    }
}

} // verus!
