//! What a watcher of a collection can rebuild from the changes that it collects.
use std::collections::HashMap;
use std::hash::Hash;

use vstd::prelude::*;
use vstd::std_specs::hash::obeys_key_model;

use crate::change::{MapChange, ValueChange, VecChange};
use crate::change_watcher::ChangeWatcher;
use crate::log::{LogStep, LogView};
use crate::map::{clear_entries, insert_entry, remove_entry};
use crate::vec::{
    clear_values, insert_value, pop_value, push_value, remove_value, replace_element,
};

verus! {

/// Every operation on a vec tells what it did to the elements that it found behind the lock: by
/// the change that it gives for the log, or by giving none where it left them as they were.
pub proof fn law_vec_operations_tell<T: Clone>(index: usize, value: T)
    ensures
        forall|found: &mut Vec<T>, change: VecChange<T>| #[trigger]
            call_ensures(push_value::<T>, (found, value), change) ==> change.tells(
                (*found)@,
                final(found)@,
            ),
        forall|found: &mut Vec<T>, result: (Option<T>, Option<VecChange<T>>)| #[trigger]
            call_ensures(pop_value::<T>, (found, ()), result) ==> vec_told(
                (*found)@,
                final(found)@,
                result.1,
            ),
        forall|found: &mut Vec<T>, result: Result<VecChange<T>, T>| #[trigger]
            call_ensures(insert_value::<T>, (found, (index, value)), result) ==> vec_told(
                (*found)@,
                final(found)@,
                crate::vec::accepted(result),
            ),
        forall|found: &mut Vec<T>, result: (Option<T>, Option<VecChange<T>>)| #[trigger]
            call_ensures(remove_value::<T>, (found, index), result) ==> vec_told(
                (*found)@,
                final(found)@,
                result.1,
            ),
        forall|found: &mut Vec<T>, result: Result<VecChange<T>, T>| #[trigger]
            call_ensures(replace_element::<T>, (found, (index, value)), result) ==> vec_told(
                (*found)@,
                final(found)@,
                crate::vec::accepted(result),
            ),
        forall|found: &mut Vec<T>, change: Option<VecChange<T>>| #[trigger]
            call_ensures(clear_values::<T>, (found, ()), change) ==> vec_told(
                (*found)@,
                final(found)@,
                change,
            ),
{
}

/// The change, if there is one, tells how some elements went from `before` to `after`. Where
/// there is none, they stayed.
pub open spec fn vec_told<T: Clone>(
    before: Seq<T>,
    after: Seq<T>,
    change: Option<VecChange<T>>,
) -> bool {
    match change {
        Some(change) => change.tells(before, after),
        None => after =~= before,
    }
}

/// Every operation on a map tells what it did to the entries that it found behind the lock: by
/// the change that it gives for the log, or by giving none where it left them as they were. The
/// keys have to hash and compare as keys should.
pub proof fn law_map_operations_tell<K: Eq + Hash + Clone, V: Clone>(key: &K, pair: (K, V))
    requires
        obeys_key_model::<K>(),
    ensures
        forall|found: &mut HashMap<K, V>, result: (Option<V>, MapChange<K, V>)| #[trigger]
            call_ensures(insert_entry::<K, V>, (found, pair), result) ==> result.1.tells(
                (*found)@,
                final(found)@,
            ),
        forall|found: &mut HashMap<K, V>, result: (Option<V>, Option<MapChange<K, V>>)| #[trigger]
            call_ensures(remove_entry::<K, V>, (found, key), result) ==> map_told(
                (*found)@,
                final(found)@,
                result.1,
            ),
        forall|found: &mut HashMap<K, V>, change: Option<MapChange<K, V>>| #[trigger]
            call_ensures(clear_entries::<K, V>, (found, ()), change) ==> map_told(
                (*found)@,
                final(found)@,
                change,
            ),
{
}

/// The change, if there is one, tells how some entries went from `before` to `after`. Where
/// there is none, they stayed.
pub open spec fn map_told<K: Clone, V: Clone>(
    before: Map<K, V>,
    after: Map<K, V>,
    change: Option<MapChange<K, V>>,
) -> bool {
    match change {
        Some(change) => change.tells(before, after),
        None => after =~= before,
    }
}

/// A watcher that had caught up with a log, and collects while there was room for all that
/// came since, can rebuild the vec from the elements that it knew. This takes a type whose
/// clones are exact.
pub proof fn law_watcher_rebuilds_vec<T: Clone>(
    log: LogView<VecChange<T>>,
    states: Seq<Seq<T>>,
    changes: Seq<VecChange<T>>,
)
    requires
        crate::change::clones_exactly::<T>(),
        log.wf(),
        log.changes.len() == 0,
        changes.len() <= log.capacity,
        log.epoch + changes.len() <= u64::MAX,
        states.len() == changes.len() + 1,
        forall|i: int|
            0 <= i < changes.len() ==> (#[trigger] changes[i]).tells(states[i], states[i + 1]),
    ensures
        !log.recorded_all(changes).missed(log.epoch),
        crate::change::replay_vec(states.first(), log.recorded_all(changes).news(log.epoch))
            == states.last(),
{
    crate::change::law_vec_changes_replay(states, changes);
    if changes.len() > 0 {
        crate::log_laws::law_watcher_collects_all_in_order(log, changes);
        assert(log.changes + changes =~= changes);
    } else {
        assert(changes =~= Seq::<VecChange<T>>::empty());
    }
}

/// A watcher that had caught up with a log, and collects while there was room for all that
/// came since, can rebuild the map from the entries that it knew. This takes types whose
/// clones are exact.
pub proof fn law_watcher_rebuilds_map<K: Clone, V: Clone>(
    log: LogView<MapChange<K, V>>,
    states: Seq<Map<K, V>>,
    changes: Seq<MapChange<K, V>>,
)
    requires
        crate::change::clones_exactly::<K>(),
        crate::change::clones_exactly::<V>(),
        log.wf(),
        log.changes.len() == 0,
        changes.len() <= log.capacity,
        log.epoch + changes.len() <= u64::MAX,
        states.len() == changes.len() + 1,
        forall|i: int|
            0 <= i < changes.len() ==> (#[trigger] changes[i]).tells(states[i], states[i + 1]),
    ensures
        !log.recorded_all(changes).missed(log.epoch),
        crate::change::replay_map(states.first(), log.recorded_all(changes).news(log.epoch))
            == states.last(),
{
    crate::change::law_map_changes_replay(states, changes);
    if changes.len() > 0 {
        crate::log_laws::law_watcher_collects_all_in_order(log, changes);
        assert(log.changes + changes =~= changes);
    } else {
        assert(changes =~= Seq::<MapChange<K, V>>::empty());
    }
}

/// A watcher of a vec had caught up with its log. Whatever is done to the vec and its log after
/// that - a log that runs full and a clear among it - polling gives something exactly if there was
/// a change. Unless it tells that changes were missed, replaying what it gives on the elements that
/// the watcher knew gives the elements that there are. No change from before may be left over in
/// the log by then. This takes a type whose clones are exact, and the epochs have to last.
pub proof fn law_vec_batch_replays_unless_missed<T: Clone>(
    pre: ChangeWatcher<VecChange<T>>,
    post: ChangeWatcher<VecChange<T>>,
    news: Option<(Vec<VecChange<T>>, bool)>,
    log: LogView<VecChange<T>>,
    steps: Seq<LogStep<VecChange<T>>>,
    states: Seq<Seq<T>>,
)
    requires
        crate::change::clones_exactly::<T>(),
        log.wf(),
        crate::log_laws::left_over(log, steps) == 0,
        log.epoch + steps.len() <= u64::MAX,
        pre.last_epoch() == log.epoch,
        ChangeWatcher::<VecChange<T>>::collects(pre, log.stepped_all(steps), post, news),
        states.len() == crate::log_laws::changes_among(steps).len() + 1,
        forall|i: int|
            0 <= i < crate::log_laws::changes_among(steps).len() ==> (
            #[trigger] crate::log_laws::changes_among(steps)[i]).tells(states[i], states[i + 1]),
    ensures
        news is Some <==> crate::log_laws::changes_among(steps).len() > 0,
        match news {
            Some((changes, missed)) => missed || crate::change::replay_vec(
                states.first(),
                changes@,
            ) == states.last(),
            None => states.last() == states.first(),
        },
{
    crate::log_laws::law_collected_is_complete_unless_missed(log, steps);
    crate::change::law_vec_changes_replay(states, crate::log_laws::changes_among(steps));
}

/// The same of a map: polling gives something exactly if there was a change, and unless it tells
/// that changes were missed, replaying what it gives on the entries that the watcher knew gives the
/// entries that there are. No change from before may be left over in the log by then. This takes
/// types whose clones are exact, and the epochs have to last.
pub proof fn law_map_batch_replays_unless_missed<K: Clone, V: Clone>(
    pre: ChangeWatcher<MapChange<K, V>>,
    post: ChangeWatcher<MapChange<K, V>>,
    news: Option<(Vec<MapChange<K, V>>, bool)>,
    log: LogView<MapChange<K, V>>,
    steps: Seq<LogStep<MapChange<K, V>>>,
    states: Seq<Map<K, V>>,
)
    requires
        crate::change::clones_exactly::<K>(),
        crate::change::clones_exactly::<V>(),
        log.wf(),
        crate::log_laws::left_over(log, steps) == 0,
        log.epoch + steps.len() <= u64::MAX,
        pre.last_epoch() == log.epoch,
        ChangeWatcher::<MapChange<K, V>>::collects(pre, log.stepped_all(steps), post, news),
        states.len() == crate::log_laws::changes_among(steps).len() + 1,
        forall|i: int|
            0 <= i < crate::log_laws::changes_among(steps).len() ==> (
            #[trigger] crate::log_laws::changes_among(steps)[i]).tells(states[i], states[i + 1]),
    ensures
        news is Some <==> crate::log_laws::changes_among(steps).len() > 0,
        match news {
            Some((changes, missed)) => missed || crate::change::replay_map(
                states.first(),
                changes@,
            ) == states.last(),
            None => states.last() == states.first(),
        },
{
    crate::log_laws::law_collected_is_complete_unless_missed(log, steps);
    crate::change::law_map_changes_replay(states, crate::log_laws::changes_among(steps));
}

/// A value with history takes on some values, one after the other. As long as there is room,
/// polling tells of each of them: one change for each, in order, each from the value before to the
/// value after, so that there is no gap. Nothing is missed, and polling once more gives nothing.
/// This takes a type whose clones are exact, and the epochs have to last.
pub proof fn law_value_history_has_no_gaps<T: Clone>(
    pre: ChangeWatcher<ValueChange<T>>,
    post: ChangeWatcher<ValueChange<T>>,
    news: Option<(Vec<ValueChange<T>>, bool)>,
    end: ChangeWatcher<ValueChange<T>>,
    more: Option<(Vec<ValueChange<T>>, bool)>,
    log: LogView<ValueChange<T>>,
    values: Seq<T>,
    changes: Seq<ValueChange<T>>,
)
    requires
        crate::change::clones_exactly::<T>(),
        log.wf(),
        log.changes.len() == 0,
        0 < changes.len() <= log.capacity,
        log.epoch + changes.len() <= u64::MAX,
        values.len() == changes.len() + 1,
        forall|i: int|
            0 <= i < changes.len() ==> (#[trigger] changes[i]).tells(values[i], values[i + 1]),
        pre.last_epoch() == log.epoch,
        ChangeWatcher::<ValueChange<T>>::collects(pre, log.recorded_all(changes), post, news),
        ChangeWatcher::<ValueChange<T>>::collects(
            post,
            log.recorded_all(changes).collected(log.epoch),
            end,
            more,
        ),
    ensures
        news matches Some((told, missed)) && {
            &&& !missed
            &&& told@.len() == changes.len()
            &&& forall|i: int|
                0 <= i < told@.len() ==> #[trigger] told@[i] == (ValueChange {
                    old: values[i],
                    new: values[i + 1],
                })
        },
        more is None,
{
    crate::log_laws::law_watcher_collects_all_in_order(log, changes);
    crate::log_laws::law_collecting_catches_up(log.recorded_all(changes), log.epoch);
    assert(log.changes + changes =~= changes);
    assert forall|i: int| 0 <= i < changes.len() implies #[trigger] changes[i] == (ValueChange {
        old: values[i],
        new: values[i + 1],
    }) by {
        assert(changes[i].tells(values[i], values[i + 1]));
    }
}

/// Replaying changes after a first one.
proof fn lemma_replay_vec_after<T>(
    elements: Seq<T>,
    first: VecChange<T>,
    changes: Seq<VecChange<T>>,
)
    ensures
        crate::change::replay_vec(elements, seq![first] + changes) == crate::change::replay_vec(
            first.apply(elements),
            changes,
        ),
    decreases changes.len(),
{
    let all = seq![first] + changes;
    if changes.len() == 0 {
        assert(all.drop_last() =~= Seq::<VecChange<T>>::empty());
        assert(all.last() == first);
        assert(crate::change::replay_vec(elements, all.drop_last()) == elements);
    } else {
        lemma_replay_vec_after(elements, first, changes.drop_last());
        assert(all.drop_last() =~= seq![first] + changes.drop_last());
        assert(all.last() == changes.last());
    }
}

/// Replaying changes after a first one.
proof fn lemma_replay_map_after<K, V>(
    map: Map<K, V>,
    first: MapChange<K, V>,
    changes: Seq<MapChange<K, V>>,
)
    ensures
        crate::change::replay_map(map, seq![first] + changes) == crate::change::replay_map(
            first.apply(map),
            changes,
        ),
    decreases changes.len(),
{
    let all = seq![first] + changes;
    if changes.len() == 0 {
        assert(all.drop_last() =~= Seq::<MapChange<K, V>>::empty());
        assert(all.last() == first);
        assert(crate::change::replay_map(map, all.drop_last()) == map);
    } else {
        lemma_replay_map_after(map, first, changes.drop_last());
        assert(all.drop_last() =~= seq![first] + changes.drop_last());
        assert(all.last() == changes.last());
    }
}

/// Clearing a vec starts its history anew: a watcher that was behind before that, and
/// collects while there is room for all that came since, can rebuild the vec whatever it
/// knew, even where it is told that it missed changes. This takes a type whose clones are
/// exact.
pub proof fn law_clear_restarts_vec_history<T: Clone>(
    log: LogView<VecChange<T>>,
    since: u64,
    known: Seq<T>,
    states: Seq<Seq<T>>,
    changes: Seq<VecChange<T>>,
)
    requires
        crate::change::clones_exactly::<T>(),
        log.wf(),
        since <= log.epoch,
        changes.len() < log.capacity,
        log.epoch + 1 + changes.len() <= u64::MAX,
        states.len() == changes.len() + 1,
        states.first() == Seq::<T>::empty(),
        forall|i: int|
            0 <= i < changes.len() ==> (#[trigger] changes[i]).tells(states[i], states[i + 1]),
    ensures
        crate::change::replay_vec(
            known,
            log.drained().recorded(VecChange::Clear).recorded_all(changes).news(since),
        ) == states.last(),
{
    let cleared = log.drained().recorded(VecChange::Clear);
    let first = VecChange::<T>::Clear;
    assert(cleared.changes =~= seq![first]);
    crate::change::law_vec_changes_replay(states, changes);
    lemma_replay_vec_after(known, first, changes);
    if changes.len() > 0 {
        crate::log_laws::law_watcher_collects_all_in_order(cleared, changes);
    } else {
        assert(seq![first] + changes =~= seq![first]);
    }
    assert(first.apply(known) =~= states.first());
}

/// Clearing a map starts its history anew: a watcher that was behind before that, and
/// collects while there is room for all that came since, can rebuild the map whatever it
/// knew, even where it is told that it missed changes. This takes types whose clones are
/// exact.
pub proof fn law_clear_restarts_map_history<K: Clone, V: Clone>(
    log: LogView<MapChange<K, V>>,
    since: u64,
    known: Map<K, V>,
    states: Seq<Map<K, V>>,
    changes: Seq<MapChange<K, V>>,
)
    requires
        crate::change::clones_exactly::<K>(),
        crate::change::clones_exactly::<V>(),
        log.wf(),
        since <= log.epoch,
        changes.len() < log.capacity,
        log.epoch + 1 + changes.len() <= u64::MAX,
        states.len() == changes.len() + 1,
        states.first() == Map::<K, V>::empty(),
        forall|i: int|
            0 <= i < changes.len() ==> (#[trigger] changes[i]).tells(states[i], states[i + 1]),
    ensures
        crate::change::replay_map(
            known,
            log.drained().recorded(MapChange::Clear).recorded_all(changes).news(since),
        ) == states.last(),
{
    let cleared = log.drained().recorded(MapChange::Clear);
    let first = MapChange::<K, V>::Clear;
    assert(cleared.changes =~= seq![first]);
    crate::change::law_map_changes_replay(states, changes);
    lemma_replay_map_after(known, first, changes);
    if changes.len() > 0 {
        crate::log_laws::law_watcher_collects_all_in_order(cleared, changes);
    } else {
        assert(seq![first] + changes =~= seq![first]);
    }
    assert(first.apply(known) =~= states.first());
}

} // verus!
