//! What holds of watchers while nobody changes what they watch.
//!
//! A watcher that is behind settles with one update: it has the latest value then, and comes to
//! rest. What a source shows while it is left alone is told of each kind of source by what it gives
//! to whoever looks at it.
use std::sync::Arc;
use std::task::Waker;

use crossbeam::atomic::AtomicCell;
use parking_lot::RwLock;
use vstd::prelude::*;

use crate::atomic::{DirectAtomic, WatchableAtomic};
use crate::combine::{And, Mapped};
use crate::epoch::{Counter, Glance};
use crate::fast::DirectFast;
use crate::join::Join;
use crate::lite::DirectLite;
use crate::shared::WatchableShared;
use crate::state::WatchableState;
use crate::sync::{clone_of, WeakRef};
use crate::value::Direct;
use crate::watcher::{Progress, Watcher};

verus! {

/// However the watcher is updated, it reports no change and keeps its value.
pub open spec fn keeps_still<W: Watcher>(watcher: W) -> bool {
    forall|post: W, changed: bool| #[trigger]
        W::updates(watcher, post, changed) ==> !changed && post.cached() == watcher.cached()
}

/// The watcher has nothing to report, nor has any clone of it, and no change is pending.
pub open spec fn rests<W: Watcher>(watcher: W) -> bool {
    &&& keeps_still(watcher)
    &&& forall|copy: W| #[trigger] cloned(watcher, copy) ==> keeps_still(copy)
    &&& forall|answer: bool| #[trigger] watcher.answers_changed(answer) ==> !answer
}

/// However the watcher is updated, it reports a change exactly if `moves`, has a value that is
/// `latest`, and rests then.
pub open spec fn comes_to_rest<W: Watcher>(
    watcher: W,
    moves: bool,
    latest: spec_fn(W::Value) -> bool,
) -> bool {
    forall|post: W, changed: bool| #[trigger]
        W::updates(watcher, post, changed) ==> changed == moves && latest(post.cached()) && rests(
            post,
        )
}

/// A watcher, and every clone of it, comes to rest with one update. Whether it says that a change
/// is pending is whether that update reports one.
pub open spec fn settles<W: Watcher>(
    watcher: W,
    moves: bool,
    latest: spec_fn(W::Value) -> bool,
) -> bool {
    &&& comes_to_rest(watcher, moves, latest)
    &&& forall|copy: W| #[trigger] cloned(watcher, copy) ==> comes_to_rest(copy, moves, latest)
    &&& forall|answer: bool| #[trigger] watcher.answers_changed(answer) ==> answer == moves
}

/// What clones keep: a clone of a value of which this holds is one of which it holds, too.
pub open spec fn clones_keep<T: Clone>(property: spec_fn(T) -> bool) -> bool {
    forall|value: T, copy: T| #[trigger] cloned(value, copy) && property(value) ==> property(copy)
}

/// Getting the value of a watcher that settles gives the latest one, and leaves nothing pending: a
/// second update reports no change, and getting the value again gives the latest one again - the
/// same, where clones are exact.
pub proof fn law_get_gives_the_latest_value<W: Watcher>(
    watcher: W,
    moves: bool,
    latest: spec_fn(W::Value) -> bool,
    first: W,
    changed: bool,
    got: W::Value,
    pending: bool,
    second: W,
    changed_again: bool,
    got_again: W::Value,
) where W::Value: Clone
    requires
        settles(watcher, moves, latest),
        clones_keep(latest),
        W::updates(watcher, first, changed),
        cloned(first.cached(), got),
        first.answers_changed(pending),
        W::updates(first, second, changed_again),
        cloned(second.cached(), got_again),
    ensures
        changed == moves,
        latest(got),
        !pending,
        !changed_again,
        latest(got_again),
        crate::change::clones_exactly::<W::Value>() ==> got_again == got,
{
}

/// The reference leads to its target, as it does as long as the target has an owner.
pub open spec fn leads_on<T>(link: WeakRef<T>) -> bool {
    forall|found: Option<Arc<T>>| #[trigger] link.gives(found) ==> found == Some(link.target())
}

/// The reference leads nowhere, as it does once the last owner of its target is gone.
pub open spec fn leads_nowhere<T>(link: WeakRef<T>) -> bool {
    forall|found: Option<Arc<T>>| #[trigger] link.gives(found) ==> found is None
}

/// Whoever looks at the shared state finds `state` there.
pub open spec fn stays_as<T: Clone>(
    shared: WatchableShared<T>,
    state: WatchableState<T>,
) -> bool {
    &&& forall|epoch: u64, news: Option<WatchableState<T>>| #[trigger]
        shared.tells(epoch, news) ==> state.tells(epoch, news)
    &&& forall|epoch: u64, answer: bool| #[trigger]
        shared.answers_after(epoch, answer) ==> answer == (state.epoch > epoch)
}

/// What a watcher saw is not ahead of the state, and is up to date where its epoch is.
pub open spec fn trails<T>(
    seen: WatchableState<T>,
    state: WatchableState<T>,
    latest: spec_fn(T) -> bool,
) -> bool {
    &&& seen.epoch <= state.epoch
    &&& seen.epoch == state.epoch ==> latest(seen.value)
}

/// A watcher of a value that is left alone settles. It has a change to report exactly if it is
/// behind. `latest` is whatever holds of the value and is kept by clones: to be that value, where
/// clones are exact.
pub proof fn law_direct_settles<T: Clone>(
    watcher: Direct<T>,
    state: WatchableState<T>,
    latest: spec_fn(T) -> bool,
)
    requires
        leads_on(watcher.link()),
        stays_as(*watcher.source(), state),
        trails(watcher.seen(), state, latest),
        latest(state.value),
        clones_keep(latest),
    ensures
        settles(watcher, state.epoch > watcher.seen().epoch, latest),
{
    assert forall|post: Direct<T>|
        post.link() == watcher.link() && post.seen().epoch >= state.epoch implies #[trigger] rests(
        post,
    ) by {
        assert forall|copy: Direct<T>| #[trigger] cloned(post, copy) implies keeps_still(copy) by {
            assert(copy.link() == post.link());
        }
    }
    assert forall|copy: Direct<T>| #[trigger] cloned(watcher, copy) implies comes_to_rest(
        copy,
        state.epoch > watcher.seen().epoch,
        latest,
    ) by {
        assert(copy.link() == watcher.link());
        assert(copy.seen().epoch == watcher.seen().epoch);
    }
}

/// A watcher of a value that is left alone settles, in the variant for many writers.
pub proof fn law_direct_fast_settles<T: Clone>(
    watcher: DirectFast<T>,
    state: WatchableState<T>,
    latest: spec_fn(T) -> bool,
)
    requires
        leads_on(watcher.link()),
        stays_as(*watcher.source(), state),
        trails(watcher.seen(), state, latest),
        latest(state.value),
        clones_keep(latest),
    ensures
        settles(watcher, state.epoch > watcher.seen().epoch, latest),
{
    assert forall|post: DirectFast<T>|
        post.link() == watcher.link() && post.seen().epoch >= state.epoch implies #[trigger] rests(
        post,
    ) by {
        assert forall|copy: DirectFast<T>| #[trigger] cloned(post, copy) implies keeps_still(
            copy,
        ) by {
            assert(copy.link() == post.link());
        }
    }
    assert forall|copy: DirectFast<T>| #[trigger] cloned(watcher, copy) implies comes_to_rest(
        copy,
        state.epoch > watcher.seen().epoch,
        latest,
    ) by {
        assert(copy.link() == watcher.link());
        assert(copy.seen().epoch == watcher.seen().epoch);
    }
}

/// Whoever reads the counter finds `epoch` there.
pub open spec fn stays_at(counter: Counter, epoch: u64) -> bool {
    forall|current: u64, receipt: Glance| #[trigger]
        crate::epoch::shows_count(counter, current, receipt) ==> current == epoch
}

/// Whoever clones what is behind the lock clones `value`.
pub open spec fn lock_holds<T: Clone>(lock: RwLock<T>, value: T) -> bool {
    forall|receipt: Glance, copy: T| #[trigger]
        crate::sync::reads_after(lock, (), clone_of::<T>, receipt, copy) ==> cloned(value, copy)
}

/// Whoever loads from the cell gets `value`.
pub open spec fn cell_holds<T: Copy>(cell: AtomicCell<T>, value: T) -> bool {
    &&& forall|copy: T| #[trigger] crate::atomic::loads(cell, copy) ==> copy == value
    &&& forall|receipt: Glance, copy: T| #[trigger]
        crate::atomic::loads_after(cell, receipt, copy) ==> copy == value
}

/// A watcher of a value that is left alone settles, in the variant that counts changes apart from
/// the value.
pub proof fn law_direct_lite_settles<T: Clone>(
    watcher: DirectLite<T>,
    epoch: u64,
    value: T,
    latest: spec_fn(T) -> bool,
)
    requires
        leads_on(watcher.links().0),
        leads_on(watcher.links().1),
        stays_at(*watcher.source().1, epoch),
        lock_holds(*watcher.source().0, value),
        watcher.last_epoch() <= epoch,
        watcher.last_epoch() == epoch ==> latest(watcher.value()),
        latest(value),
        clones_keep(latest),
    ensures
        settles(watcher, epoch > watcher.last_epoch(), latest),
{
    assert forall|post: DirectLite<T>|
        post.links() == watcher.links() && post.last_epoch() >= epoch implies #[trigger] rests(
        post,
    ) by {
        assert forall|copy: DirectLite<T>| #[trigger] cloned(post, copy) implies keeps_still(
            copy,
        ) by {
            assert(copy.links() == post.links());
        }
    }
    assert forall|copy: DirectLite<T>| #[trigger] cloned(watcher, copy) implies comes_to_rest(
        copy,
        epoch > watcher.last_epoch(),
        latest,
    ) by {
        assert(copy.links() == watcher.links());
        assert(copy.last_epoch() == watcher.last_epoch());
        assert(cloned(watcher.value(), copy.value()));
    }
}

/// A watcher of a value that is left alone settles, in the variant for small values: it has the
/// value itself then.
pub proof fn law_direct_atomic_settles<T: Copy>(watcher: DirectAtomic<T>, epoch: u64, value: T)
    requires
        leads_on(watcher.links().0),
        leads_on(watcher.links().1),
        stays_at(*watcher.source().1, epoch),
        cell_holds(*watcher.source().0, value),
        watcher.last_epoch() <= epoch,
        watcher.last_epoch() == epoch ==> watcher.value() == value,
    ensures
        settles(watcher, epoch > watcher.last_epoch(), |found: T| found == value),
{
    let latest = |found: T| found == value;
    assert forall|post: DirectAtomic<T>|
        post.links() == watcher.links() && post.last_epoch() >= epoch implies #[trigger] rests(
        post,
    ) by {
        assert forall|copy: DirectAtomic<T>| #[trigger] cloned(post, copy) implies keeps_still(
            copy,
        ) by {
            assert(copy.links() == post.links());
        }
    }
    assert forall|copy: DirectAtomic<T>| #[trigger] cloned(watcher, copy) implies comes_to_rest(
        copy,
        epoch > watcher.last_epoch(),
        latest,
    ) by {
        assert(copy.links() == watcher.links());
        assert(copy.last_epoch() == watcher.last_epoch());
        assert(copy.value() == watcher.value());
    }
}

/// A watcher whose source is gone rests: it keeps the value that it saw last.
pub proof fn law_direct_outlives_its_source<T: Clone>(watcher: Direct<T>)
    requires
        leads_nowhere(watcher.link()),
    ensures
        rests(watcher),
{
    assert forall|copy: Direct<T>| #[trigger] cloned(watcher, copy) implies keeps_still(copy) by {
        assert(copy.link() == watcher.link());
    }
}

/// A watcher whose source is gone rests, in the variant for many writers.
pub proof fn law_direct_fast_outlives_its_source<T: Clone>(watcher: DirectFast<T>)
    requires
        leads_nowhere(watcher.link()),
    ensures
        rests(watcher),
{
    assert forall|copy: DirectFast<T>| #[trigger] cloned(watcher, copy) implies keeps_still(
        copy,
    ) by {
        assert(copy.link() == watcher.link());
    }
}

/// A watcher whose source is gone rests, in the variant that counts changes apart from the value.
pub proof fn law_direct_lite_outlives_its_source<T: Clone>(watcher: DirectLite<T>)
    requires
        leads_nowhere(watcher.links().1),
    ensures
        rests(watcher),
{
    assert forall|copy: DirectLite<T>| #[trigger] cloned(watcher, copy) implies keeps_still(
        copy,
    ) by {
        assert(copy.links() == watcher.links());
    }
}

/// A watcher whose source is gone rests, in the variant for small values.
pub proof fn law_direct_atomic_outlives_its_source<T: Copy>(watcher: DirectAtomic<T>)
    requires
        leads_nowhere(watcher.links().1),
    ensures
        rests(watcher),
{
    assert forall|copy: DirectAtomic<T>| #[trigger] cloned(watcher, copy) implies keeps_still(
        copy,
    ) by {
        assert(copy.links() == watcher.links());
    }
}

/// A small value that is held is what getting it gives, and what a new watcher has from the start.
/// The new watcher is not behind: it settles without a change.
pub proof fn law_new_atomic_watcher_is_up_to_date<T: Copy>(
    handle: WatchableAtomic<T>,
    got: T,
    watcher: DirectAtomic<T>,
    epoch: u64,
    value: T,
)
    requires
        cell_holds(*handle.shared().0, value),
        stays_at(*handle.shared().1, epoch),
        handle.shows(got),
        watcher.source() == handle.shared(),
        exists|receipt: Glance| #[trigger]
            crate::epoch::shows_count(*handle.shared().1, watcher.last_epoch(), receipt)
                && crate::atomic::loads_after(*handle.shared().0, receipt, watcher.value()),
        leads_on(watcher.links().0),
        leads_on(watcher.links().1),
    ensures
        got == value,
        watcher.value() == value,
        settles(watcher, false, |found: T| found == value),
{
    law_direct_atomic_settles(watcher, epoch, value);
}

/// Once a small value was set and the change was counted, every watcher that had not seen it is
/// behind. One of them is updated: it reports a change and has the value. The other one is behind
/// all the same.
pub proof fn law_atomic_change_reaches_every_watcher<T: Copy>(
    handle: WatchableAtomic<T>,
    one: DirectAtomic<T>,
    updated: DirectAtomic<T>,
    changed: bool,
    other: DirectAtomic<T>,
    epoch: u64,
    value: T,
)
    requires
        cell_holds(*handle.shared().0, value),
        stays_at(*handle.shared().1, epoch),
        one.source() == handle.shared(),
        leads_on(one.links().0),
        leads_on(one.links().1),
        one.last_epoch() < epoch,
        other.source() == handle.shared(),
        leads_on(other.links().0),
        leads_on(other.links().1),
        other.last_epoch() < epoch,
        DirectAtomic::<T>::updates(one, updated, changed),
    ensures
        changed,
        updated.value() == value,
        rests(updated),
        settles(other, true, |found: T| found == value),
{
    law_direct_atomic_settles(one, epoch, value);
    law_direct_atomic_settles(other, epoch, value);
}

/// A watcher of a value is connected exactly as long as its reference leads to the source.
pub proof fn law_direct_watchers_are_connected_while_their_source_lasts<T: Clone, C: Copy>(
    direct: Direct<T>,
    fast: DirectFast<T>,
    lite: DirectLite<T>,
    atomic: DirectAtomic<C>,
)
    ensures
        leads_on(direct.link()) ==> (forall|answer: bool| #[trigger]
            direct.answers_connected(answer) ==> answer),
        leads_nowhere(direct.link()) ==> (forall|answer: bool| #[trigger]
            direct.answers_connected(answer) ==> !answer),
        leads_on(fast.link()) ==> (forall|answer: bool| #[trigger]
            fast.answers_connected(answer) ==> answer),
        leads_nowhere(fast.link()) ==> (forall|answer: bool| #[trigger]
            fast.answers_connected(answer) ==> !answer),
        leads_on(lite.links().1) ==> (forall|answer: bool| #[trigger]
            lite.answers_connected(answer) ==> answer),
        leads_nowhere(lite.links().1) ==> (forall|answer: bool| #[trigger]
            lite.answers_connected(answer) ==> !answer),
        leads_on(atomic.links().1) ==> (forall|answer: bool| #[trigger]
            atomic.answers_connected(answer) ==> answer),
        leads_nowhere(atomic.links().1) ==> (forall|answer: bool| #[trigger]
            atomic.answers_connected(answer) ==> !answer),
{
}

/// A watcher of a value whose reference leads nowhere fails to be polled, and stays as it was. One
/// whose reference leads to the source does not fail.
pub proof fn law_polling_fails_exactly_if_the_source_is_gone<T: Clone>(
    pre: Direct<T>,
    post: Direct<T>,
    task: Set<Waker>,
    outcome: Progress,
)
    requires
        Direct::<T>::polls(pre, post, task, outcome),
    ensures
        leads_nowhere(pre.link()) ==> outcome is Gone && post.seen() == pre.seen(),
        leads_on(pre.link()) ==> !(outcome is Gone),
        post.link() == pre.link(),
{
}

/// Comparing two values answers whether they are the same.
pub open spec fn compares_exactly<U: PartialEq>() -> bool {
    forall|a: U, b: U, answer: bool| #[trigger]
        crate::state::eq_answers(a, b, answer) ==> answer == (a == b)
}

/// A mapped watcher rests when the watcher that it is made of does, as when the source is gone.
pub proof fn law_mapped_rests<W, U, F>(mapped: Mapped<W, U, F>) where
    W: Watcher,
    U: Clone + PartialEq,
    F: Fn(&W::Value) -> U,

    requires
        rests(mapped.watcher),
    ensures
        rests(mapped),
{
    assert forall|copy: Mapped<W, U, F>| #[trigger] cloned(mapped, copy) implies keeps_still(
        copy,
    ) by {
        assert(cloned(mapped.watcher, copy.watcher));
    }
}

/// A mapped watcher settles when the watcher that it is made of does. It has what the function
/// makes of the latest value then, and reports a change exactly if that is another value than the
/// one it had. The function has to make the same `image` of any value that is the latest, and the
/// mapped values have to clone and compare exactly.
pub proof fn law_mapped_settles<W, U, F>(
    mapped: Mapped<W, U, F>,
    moves: bool,
    latest: spec_fn(W::Value) -> bool,
    image: U,
) where W: Watcher, U: Clone + PartialEq, F: Fn(&W::Value) -> U
    requires
        settles(mapped.watcher, moves, latest),
        forall|value: W::Value, made: U| #[trigger]
            call_ensures(mapped.map_fn.f(), (&value,), made) && latest(value) ==> made == image,
        moves || mapped.current == image,
        compares_exactly::<U>(),
        crate::change::clones_exactly::<U>(),
    ensures
        settles(mapped, mapped.current != image, |found: U| found == image),
{
    let found = |found: U| found == image;
    assert forall|post: Mapped<W, U, F>, changed: bool| #[trigger]
        Mapped::<W, U, F>::updates(mapped, post, changed) implies changed == (mapped.current
        != image) && found(post.cached()) && rests(post) by {
        law_mapped_rests(post);
    }
    assert forall|copy: Mapped<W, U, F>| #[trigger] cloned(mapped, copy) implies comes_to_rest(
        copy,
        mapped.current != image,
        found,
    ) by {
        assert(cloned(mapped.watcher, copy.watcher));
        assert(cloned(mapped.current, copy.current));
        assert(copy.map_fn == mapped.map_fn);
        assert forall|post: Mapped<W, U, F>, changed: bool| #[trigger]
            Mapped::<W, U, F>::updates(copy, post, changed) implies changed == (mapped.current
            != image) && found(post.cached()) && rests(post) by {
            law_mapped_rests(post);
        }
    }
}

/// A pair rests when both of its sides do and no change is left to be reported.
pub proof fn law_pair_rests<A: Watcher, B: Watcher>(both: And<A, B>) where
    A::Value: Clone,
    B::Value: Clone,

    requires
        rests(both.a),
        rests(both.b),
        !both.unreported,
    ensures
        rests(both),
{
    assert forall|copy: And<A, B>| #[trigger] cloned(both, copy) implies keeps_still(copy) by {
        assert(cloned(both.a, copy.a));
        assert(cloned(both.b, copy.b));
    }
}

/// A join rests when each of its watchers does and no change is left to be reported.
pub proof fn law_join_rests<W: Watcher>(joined: Join<W>) where W::Value: Clone
    requires
        forall|i: int| 0 <= i < joined.watchers.len() ==> rests(#[trigger] joined.watchers[i]),
        !joined.unreported,
    ensures
        rests(joined),
{
    assert forall|post: Join<W>, changed: bool| #[trigger]
        Join::<W>::updates(joined, post, changed) implies !changed && post.cached()
        == joined.cached() by {
        let each = choose|each: Seq<bool>| #[trigger]
            Join::<W>::updates_each(joined, post, each) && changed == (joined.unreported
                || each.contains(true));
        assert forall|i: int| 0 <= i < each.len() implies !#[trigger] each[i] by {
            assert(rests(joined.watchers[i]));
            assert(W::updates(joined.watchers[i], post.watchers[i], each[i]));
        }
    }
    assert forall|copy: Join<W>| #[trigger] cloned(joined, copy) implies keeps_still(copy) by {
        assert forall|post: Join<W>, changed: bool| #[trigger]
            Join::<W>::updates(copy, post, changed) implies !changed && post.cached()
            == copy.cached() by {
            let each = choose|each: Seq<bool>| #[trigger]
                Join::<W>::updates_each(copy, post, each) && changed == (copy.unreported
                    || each.contains(true));
            assert forall|i: int| 0 <= i < each.len() implies !#[trigger] each[i] by {
                assert(rests(joined.watchers[i]));
                assert(cloned(joined.watchers[i], copy.watchers[i]));
                assert(W::updates(copy.watchers[i], post.watchers[i], each[i]));
            }
        }
    }
    assert forall|answer: bool| #[trigger] joined.answers_changed(answer) implies !answer by {
        if answer {
            let i = choose|i: int|
                0 <= i < joined.watchers.len() && (#[trigger] joined.watchers[i]).answers_changed(
                    true,
                );
            assert(rests(joined.watchers[i]));
        }
    }
}

/// A pair comes to rest when both of its sides do.
proof fn lemma_pair_comes_to_rest<A: Watcher, B: Watcher>(
    both: And<A, B>,
    moves: (bool, bool),
    latest: (spec_fn(A::Value) -> bool, spec_fn(B::Value) -> bool),
) where A::Value: Clone, B::Value: Clone
    requires
        comes_to_rest(both.a, moves.0, latest.0),
        comes_to_rest(both.b, moves.1, latest.1),
        clones_keep(latest.0),
        clones_keep(latest.1),
        moves.0 || latest.0(both.current.0),
        moves.1 || latest.1(both.current.1),
    ensures
        comes_to_rest(
            both,
            both.unreported || moves.0 || moves.1,
            |values: (A::Value, B::Value)| latest.0(values.0) && latest.1(values.1),
        ),
{
    let found = |values: (A::Value, B::Value)| latest.0(values.0) && latest.1(values.1);
    assert forall|post: And<A, B>, changed: bool| #[trigger]
        And::<A, B>::updates(both, post, changed) implies changed == (both.unreported || moves.0
        || moves.1) && found(post.cached()) && rests(post) by {
        law_pair_rests(post);
    }
}

/// A pair settles when both of its sides do. It has the latest values of both then, each in its
/// place, and reports a change exactly if one of the sides does, or a change was left to be
/// reported. The value of a side that has no change to report has to be up to date.
pub proof fn law_pair_settles<A: Watcher, B: Watcher>(
    both: And<A, B>,
    moves: (bool, bool),
    latest: (spec_fn(A::Value) -> bool, spec_fn(B::Value) -> bool),
) where A::Value: Clone, B::Value: Clone
    requires
        settles(both.a, moves.0, latest.0),
        settles(both.b, moves.1, latest.1),
        clones_keep(latest.0),
        clones_keep(latest.1),
        moves.0 || latest.0(both.current.0),
        moves.1 || latest.1(both.current.1),
    ensures
        settles(
            both,
            both.unreported || moves.0 || moves.1,
            |values: (A::Value, B::Value)| latest.0(values.0) && latest.1(values.1),
        ),
{
    lemma_pair_comes_to_rest(both, moves, latest);
    assert forall|copy: And<A, B>| #[trigger] cloned(both, copy) implies comes_to_rest(
        copy,
        both.unreported || moves.0 || moves.1,
        |values: (A::Value, B::Value)| latest.0(values.0) && latest.1(values.1),
    ) by {
        assert(cloned(both.a, copy.a));
        assert(cloned(both.b, copy.b));
        assert(cloned(both.current.0, copy.current.0));
        assert(cloned(both.current.1, copy.current.1));
        lemma_pair_comes_to_rest(copy, moves, latest);
    }
}

/// Each of some values is the latest one for its place.
pub open spec fn all_latest<V>(values: Seq<V>, latest: Seq<spec_fn(V) -> bool>) -> bool {
    &&& values.len() == latest.len()
    &&& forall|i: int| 0 <= i < values.len() ==> latest[i](#[trigger] values[i])
}

/// A join comes to rest when each of its watchers does.
proof fn lemma_join_comes_to_rest<W: Watcher>(
    joined: Join<W>,
    moves: Seq<bool>,
    latest: Seq<spec_fn(W::Value) -> bool>,
) where W::Value: Clone
    requires
        joined.watchers.len() == moves.len(),
        joined.current.len() == moves.len(),
        latest.len() == moves.len(),
        forall|i: int|
            0 <= i < moves.len() ==> comes_to_rest(
                #[trigger] joined.watchers[i],
                moves[i],
                latest[i],
            ),
        forall|i: int| 0 <= i < moves.len() ==> clones_keep(#[trigger] latest[i]),
        forall|i: int|
            0 <= i < moves.len() ==> moves[i] || latest[i](#[trigger] joined.current[i]),
    ensures
        comes_to_rest(
            joined,
            joined.unreported || moves.contains(true),
            |values: Vec<W::Value>| all_latest(values@, latest),
        ),
{
    let found = |values: Vec<W::Value>| all_latest(values@, latest);
    assert forall|post: Join<W>, changed: bool| #[trigger]
        Join::<W>::updates(joined, post, changed) implies changed == (joined.unreported
        || moves.contains(true)) && found(post.cached()) && rests(post) by {
        let each = choose|each: Seq<bool>| #[trigger]
            Join::<W>::updates_each(joined, post, each) && changed == (joined.unreported
                || each.contains(true));
        assert forall|i: int| 0 <= i < each.len() implies #[trigger] each[i] == moves[i] && rests(
            post.watchers[i],
        ) && latest[i](post.current[i]) by {
            assert(comes_to_rest(joined.watchers[i], moves[i], latest[i]));
            assert(W::updates(joined.watchers[i], post.watchers[i], each[i]));
            assert(clones_keep(latest[i]));
            if each[i] {
                assert(cloned(post.watchers[i].cached(), post.current[i]));
            } else {
                assert(post.current[i] == joined.current[i]);
            }
        }
        assert(each =~= moves);
        assert forall|i: int| 0 <= i < post.watchers.len() implies rests(
            #[trigger] post.watchers[i],
        ) by {
            assert(each[i] == moves[i]);
        }
        assert forall|i: int| 0 <= i < post.current@.len() implies latest[i](
            #[trigger] post.current@[i],
        ) by {
            assert(each[i] == moves[i]);
        }
        law_join_rests(post);
    }
}

/// A join settles when each of its watchers does. It has the latest value of each then, in its
/// place, and reports a change exactly if one of the watchers does, or a change was left to be
/// reported. The value of a watcher that has no change to report has to be up to date.
pub proof fn law_join_settles<W: Watcher>(
    joined: Join<W>,
    moves: Seq<bool>,
    latest: Seq<spec_fn(W::Value) -> bool>,
) where W::Value: Clone
    requires
        joined.watchers.len() == moves.len(),
        joined.current.len() == moves.len(),
        latest.len() == moves.len(),
        forall|i: int|
            0 <= i < moves.len() ==> settles(#[trigger] joined.watchers[i], moves[i], latest[i]),
        forall|i: int| 0 <= i < moves.len() ==> clones_keep(#[trigger] latest[i]),
        forall|i: int|
            0 <= i < moves.len() ==> moves[i] || latest[i](#[trigger] joined.current[i]),
    ensures
        settles(
            joined,
            joined.unreported || moves.contains(true),
            |values: Vec<W::Value>| all_latest(values@, latest),
        ),
{
    assert forall|i: int| 0 <= i < moves.len() implies comes_to_rest(
        #[trigger] joined.watchers[i],
        moves[i],
        latest[i],
    ) by {
        assert(settles(joined.watchers[i], moves[i], latest[i]));
    }
    lemma_join_comes_to_rest(joined, moves, latest);
    assert forall|copy: Join<W>| #[trigger] cloned(joined, copy) implies comes_to_rest(
        copy,
        joined.unreported || moves.contains(true),
        |values: Vec<W::Value>| all_latest(values@, latest),
    ) by {
        assert forall|i: int| 0 <= i < moves.len() implies comes_to_rest(
            #[trigger] copy.watchers[i],
            moves[i],
            latest[i],
        ) by {
            assert(settles(joined.watchers[i], moves[i], latest[i]));
            assert(cloned(joined.watchers[i], copy.watchers[i]));
        }
        assert forall|i: int| 0 <= i < moves.len() implies moves[i] || latest[i](
            #[trigger] copy.current[i],
        ) by {
            assert(clones_keep(latest[i]));
            assert(cloned(joined.current[i], copy.current[i]));
        }
        lemma_join_comes_to_rest(copy, moves, latest);
    }
    assert forall|answer: bool| #[trigger] joined.answers_changed(answer) implies answer == (
    joined.unreported || moves.contains(true)) by {
        if answer && !joined.unreported {
            let i = choose|i: int|
                0 <= i < joined.watchers.len() && (#[trigger] joined.watchers[i]).answers_changed(
                    true,
                );
            assert(settles(joined.watchers[i], moves[i], latest[i]));
            assert(moves[i]);
        }
        if !answer && moves.contains(true) {
            let i = choose|i: int| 0 <= i < moves.len() && moves[i];
            assert(settles(joined.watchers[i], moves[i], latest[i]));
            assert(joined.watchers[i].answers_changed(false));
        }
    }
}

} // verus!
