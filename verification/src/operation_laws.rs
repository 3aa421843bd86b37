//! What each of the functions does that are run behind a lock, to whatever it finds there.
//!
//! The contracts of the handles name these functions. Here it is said of each of them, element by
//! element and entry by entry, what is there afterwards and what it gives.
use std::collections::{HashMap, VecDeque};
use std::hash::Hash;
use std::task::Waker;

use vstd::pervasive::strictly_cloned;
use vstd::prelude::*;
use vstd::std_specs::hash::obeys_key_model;

use crate::change::{MapChange, ValueChange, VecChange};
use crate::history_value::{modify_value, replace_value};
use crate::lite_map::{store_entry, take_entry};
use crate::lite_vec::{put_at, put_in, put_last, take_last, take_out};
use crate::log::{Aftermath, ChangeLog, Collected};
use crate::map::{clear_entries, get_entry, has_entry, insert_entry, lacks_entries, remove_entry};
use crate::notifier::{note_change, Notifier};
use crate::state::WatchableState;
use crate::sync::{add_task, take_tasks};
use crate::vec::{
    clear_values, count_elements, get_cloned, insert_value, lacks_elements, pop_value, push_value,
    remove_value, replace_element,
};

verus! {

/// Pushing leaves the elements that were there where they were, puts a clone of the value behind
/// them, and gives a change that holds the value.
pub proof fn law_push_adds_at_the_end<T: Clone>(found: &mut Vec<T>, value: T, change: VecChange<T>)
    requires
        call_ensures(push_value::<T>, (found, value), change),
    ensures
        final(found)@.len() == old(found)@.len() + 1,
        forall|i: int| 0 <= i < old(found)@.len() ==> #[trigger] final(found)@[i] == old(found)@[i],
        cloned(value, final(found)@[old(found)@.len() as int]),
        change == (VecChange::Push { value }),
{
}

/// Popping gives the last element and takes it out, with a change that says so. Where there is
/// none, nothing happens.
pub proof fn law_pop_takes_the_last<T: Clone>(
    found: &mut Vec<T>,
    result: (Option<T>, Option<VecChange<T>>),
)
    requires
        call_ensures(pop_value::<T>, (found, ()), result),
    ensures
        old(found)@.len() == 0 ==> result.0 is None
            && result.1 is None
            && final(found)@ == old(found)@,
        old(found)@.len() > 0 ==> {
            &&& result.0 == Some(old(found)@[old(found)@.len() - 1])
            &&& result.1 == Some(VecChange::<T>::Pop)
            &&& final(found)@.len() == old(found)@.len() - 1
            &&& forall|i: int|
                0 <= i < final(found)@.len() ==> #[trigger] final(found)@[i] == old(found)@[i]
        },
{
}

/// Inserting moves the elements from `index` on up by one, and puts a clone of the value there,
/// with a change that says so. Behind the end there is no place: the value is handed back.
pub proof fn law_insert_makes_room<T: Clone>(
    found: &mut Vec<T>,
    index: usize,
    value: T,
    result: Result<VecChange<T>, T>,
)
    requires
        call_ensures(insert_value::<T>, (found, (index, value)), result),
    ensures
        index > old(found)@.len() ==> result == Err::<VecChange<T>, T>(value)
            && final(found)@ == old(found)@,
        index <= old(found)@.len() ==> {
            &&& result == Ok::<VecChange<T>, T>(VecChange::Insert { index, value })
            &&& final(found)@.len() == old(found)@.len() + 1
            &&& cloned(value, final(found)@[index as int])
            &&& forall|i: int| 0 <= i < index ==> #[trigger] final(found)@[i] == old(found)@[i]
            &&& forall|i: int|
                index < i < final(found)@.len()
                    ==> #[trigger] final(found)@[i] == old(found)@[i - 1]
        },
{
}

/// Removing gives the element at `index` and closes the gap, with a change that says so. Where
/// there is none, nothing happens.
pub proof fn law_remove_closes_the_gap<T: Clone>(
    found: &mut Vec<T>,
    index: usize,
    result: (Option<T>, Option<VecChange<T>>),
)
    requires
        call_ensures(remove_value::<T>, (found, index), result),
    ensures
        index >= old(found)@.len() ==> result.0 is None
            && result.1 is None
            && final(found)@ == old(found)@,
        index < old(found)@.len() ==> {
            &&& result.0 == Some(old(found)@[index as int])
            &&& result.1 == Some(VecChange::<T>::Remove { index })
            &&& final(found)@.len() == old(found)@.len() - 1
            &&& forall|i: int| 0 <= i < index ==> #[trigger] final(found)@[i] == old(found)@[i]
            &&& forall|i: int|
                index <= i < final(found)@.len()
                    ==> #[trigger] final(found)@[i] == old(found)@[i + 1]
        },
{
}

/// Setting an element puts a clone of the value in its place and leaves the others, with a change
/// that says so. Where there is no such element, the value is handed back.
pub proof fn law_set_replaces_one_element<T: Clone>(
    found: &mut Vec<T>,
    index: usize,
    value: T,
    result: Result<VecChange<T>, T>,
)
    requires
        call_ensures(replace_element::<T>, (found, (index, value)), result),
    ensures
        index >= old(found)@.len() ==> result == Err::<VecChange<T>, T>(value)
            && final(found)@ == old(found)@,
        index < old(found)@.len() ==> {
            &&& result == Ok::<VecChange<T>, T>(VecChange::Replace { index, value })
            &&& final(found)@.len() == old(found)@.len()
            &&& cloned(value, final(found)@[index as int])
            &&& forall|i: int|
                0 <= i < old(found)@.len()
                    && i != index ==> #[trigger] final(found)@[i] == old(found)@[i]
        },
{
}

/// Clearing takes out every element, with a change if there was one.
pub proof fn law_clear_leaves_no_element<T: Clone>(
    found: &mut Vec<T>,
    change: Option<VecChange<T>>,
)
    requires
        call_ensures(clear_values::<T>, (found, ()), change),
    ensures
        final(found)@.len() == 0,
        change == if old(found)@.len() > 0 {
            Some(VecChange::<T>::Clear)
        } else {
            None
        },
{
}

/// Reading a vec gives a clone of the element at `index`, or tells that there is none, and how many
/// there are.
pub proof fn law_reading_a_vec<T: Clone>(
    found: &Vec<T>,
    index: usize,
    value: Option<T>,
    len: usize,
    empty: bool,
)
    requires
        call_ensures(get_cloned::<T>, (found, index), value),
        call_ensures(count_elements::<T>, (found, ()), len),
        call_ensures(lacks_elements::<T>, (found, ()), empty),
    ensures
        index >= found@.len() ==> value is None,
        index < found@.len() ==> (value matches Some(copy) && strictly_cloned(
            found@[index as int],
            copy,
        )),
        len == found@.len(),
        empty <==> found@.len() == 0,
{
}

/// The operations on a vec that only tells that it changed do the same to the elements, with the
/// values themselves.
pub proof fn law_lite_vec_operations<T>(
    pushed: &mut Vec<T>,
    popped: &mut Vec<T>,
    last: Option<T>,
    inserted: &mut Vec<T>,
    accepted: Result<(), T>,
    removed: &mut Vec<T>,
    taken: Option<T>,
    replaced: &mut Vec<T>,
    stored: Result<(), T>,
    cleared: &mut Vec<T>,
    changed: bool,
    index: usize,
    value: T,
)
    requires
        call_ensures(put_last::<T>, (pushed, value), ()),
        call_ensures(take_last::<T>, (popped, ()), last),
        call_ensures(put_in::<T>, (inserted, (index, value)), accepted),
        call_ensures(take_out::<T>, (removed, index), taken),
        call_ensures(put_at::<T>, (replaced, (index, value)), stored),
        call_ensures(crate::lite_vec::empty_out::<T>, (cleared, ()), changed),
    ensures
        final(pushed)@ == old(pushed)@.push(value),
        old(popped)@.len() == 0 ==> last is None && final(popped)@ == old(popped)@,
        old(popped)@.len() > 0 ==> last == Some(old(popped)@[old(popped)@.len() - 1])
            && final(popped)@
            == old(popped)@.subrange(0, old(popped)@.len() - 1),
        index > old(inserted)@.len() ==> accepted == Err::<(), T>(value) && final(inserted)@
            == old(inserted)@,
        index <= old(inserted)@.len() ==> accepted is Ok
            && final(inserted)@ == old(inserted)@.subrange(
            0,
            index as int,
        ) + seq![value] + old(inserted)@.subrange(index as int, old(inserted)@.len() as int),
        index >= old(removed)@.len() ==> taken is None && final(removed)@ == old(removed)@,
        index < old(removed)@.len() ==> taken == Some(old(removed)@[index as int])
            && final(removed)@
            == old(removed)@.subrange(0, index as int) + old(removed)@.subrange(
            index + 1,
            old(removed)@.len() as int,
        ),
        index >= old(replaced)@.len() ==> stored == Err::<(), T>(value) && final(replaced)@
            == old(replaced)@,
        index < old(replaced)@.len() ==> stored is Ok
            && final(replaced)@ == old(replaced)@.subrange(
            0,
            index as int,
        ) + seq![value] + old(replaced)@.subrange(index + 1, old(replaced)@.len() as int),
        final(cleared)@.len() == 0,
        changed <==> old(cleared)@.len() > 0,
{
    if index <= inserted@.len() {
        assert(final(inserted)@ =~= inserted@.subrange(0, index as int) + seq![value]
            + inserted@.subrange(index as int, inserted@.len() as int));
    }
    if index < removed@.len() {
        assert(final(removed)@ =~= removed@.subrange(0, index as int) + removed@.subrange(
            index + 1,
            removed@.len() as int,
        ));
    }
    if index < replaced@.len() {
        assert(final(replaced)@ =~= replaced@.subrange(0, index as int) + seq![value]
            + replaced@.subrange(index + 1, replaced@.len() as int));
    }
}

/// Inserting an entry maps the key to a clone of the value, gives what was there before, and leaves
/// every other key as it was, with a change that says so. The keys have to hash and compare as keys
/// should, and their clones have to be exact.
pub proof fn law_map_insert_changes_one_entry<K: Eq + Hash + Clone, V: Clone>(
    found: &mut HashMap<K, V>,
    key: K,
    value: V,
    result: (Option<V>, MapChange<K, V>),
    other: K,
)
    requires
        obeys_key_model::<K>(),
        crate::change::clones_exactly::<K>(),
        call_ensures(insert_entry::<K, V>, (found, (key, value)), result),
        other != key,
    ensures
        final(found)@.contains_key(key),
        cloned(value, final(found)@[key]),
        result.0 is Some <==> old(found)@.contains_key(key),
        result.0 matches Some(before) ==> before == old(found)@[key],
        final(found)@.contains_key(other) <==> old(found)@.contains_key(other),
        old(found)@.contains_key(other) ==> final(found)@[other] == old(found)@[other],
        result.1 == (MapChange::Insert { key, value }),
{
    let stored = choose|stored: K| #[trigger]
        strictly_cloned(key, stored) && result.0 == crate::map::entry(found@, stored);
    assert(cloned(key, stored));
}

/// Removing an entry gives its value, if there is one, and leaves every other key as it was, with a
/// change that says so. The keys have to hash and compare as keys should, and their clones have to
/// be exact.
pub proof fn law_map_remove_changes_one_entry<K: Eq + Hash + Clone, V: Clone>(
    found: &mut HashMap<K, V>,
    key: &K,
    result: (Option<V>, Option<MapChange<K, V>>),
    other: K,
)
    requires
        obeys_key_model::<K>(),
        crate::change::clones_exactly::<K>(),
        call_ensures(remove_entry::<K, V>, (found, key), result),
        other != *key,
    ensures
        !final(found)@.contains_key(*key),
        result.0 is Some <==> old(found)@.contains_key(*key),
        result.0 matches Some(value) ==> value == old(found)@[*key],
        result.1 == if old(found)@.contains_key(*key) {
            Some(MapChange::<K, V>::Remove { key: *key })
        } else {
            None
        },
        final(found)@.contains_key(other) <==> old(found)@.contains_key(other),
        old(found)@.contains_key(other) ==> final(found)@[other] == old(found)@[other],
{
    if let Some(MapChange::Remove { key: copy }) = result.1 {
        assert(cloned(*key, copy));
    }
}

/// Clearing a map takes out every entry, with a change if there was one.
pub proof fn law_map_clear_leaves_no_entry<K: Clone, V: Clone>(
    found: &mut HashMap<K, V>,
    change: Option<MapChange<K, V>>,
    key: K,
)
    requires
        call_ensures(clear_entries::<K, V>, (found, ()), change),
    ensures
        !final(found)@.contains_key(key),
        old(found)@.contains_key(key) ==> change == Some(MapChange::<K, V>::Clear),
        change is Some ==> change == Some(MapChange::<K, V>::Clear) && exists|held: K|
            old(found)@.contains_key(held),
{
    if found@.contains_key(key) {
        assert(!(found@ =~= Map::<K, V>::empty()));
    }
    if change is Some {
        assert(exists|held: K| found@.contains_key(held)) by {
            if forall|held: K| !found@.contains_key(held) {
                assert(found@ =~= Map::<K, V>::empty());
            }
        }
    }
}

/// Reading a map gives a clone of the value of a key, or tells that there is none. The keys have to
/// hash and compare as keys should.
pub proof fn law_reading_a_map<K: Eq + Hash, V: Clone>(
    found: &HashMap<K, V>,
    key: &K,
    value: Option<V>,
    present: bool,
    empty: bool,
)
    requires
        obeys_key_model::<K>(),
        call_ensures(get_entry::<K, V>, (found, key), value),
        call_ensures(has_entry::<K, V>, (found, key), present),
        call_ensures(lacks_entries::<K, V>, (found, ()), empty),
    ensures
        present <==> found@.contains_key(*key),
        value is Some <==> found@.contains_key(*key),
        value matches Some(copy) ==> strictly_cloned(found@[*key], copy),
        found@.contains_key(*key) ==> !empty,
{
    if found@.contains_key(*key) {
        assert(!(found@ =~= Map::<K, V>::empty()));
    }
}

/// The operations on a map that only tells that it changed change the one entry, with the key and
/// the value themselves, and leave every other key as it was. The keys have to hash and compare as
/// keys should.
pub proof fn law_lite_map_operations<K: Eq + Hash, V>(
    stored: &mut HashMap<K, V>,
    before: Option<V>,
    taken: &mut HashMap<K, V>,
    value_taken: Option<V>,
    cleared: &mut HashMap<K, V>,
    changed: bool,
    key: K,
    value: V,
    other: K,
)
    requires
        obeys_key_model::<K>(),
        call_ensures(store_entry::<K, V>, (stored, (key, value)), before),
        call_ensures(take_entry::<K, V>, (taken, &key), value_taken),
        call_ensures(crate::lite_map::empty_out::<K, V>, (cleared, ()), changed),
        other != key,
    ensures
        final(stored)@.contains_key(key) && final(stored)@[key] == value,
        before is Some <==> old(stored)@.contains_key(key),
        before matches Some(old_value) ==> old_value == old(stored)@[key],
        final(stored)@.contains_key(other) <==> old(stored)@.contains_key(other),
        old(stored)@.contains_key(other) ==> final(stored)@[other] == old(stored)@[other],
        !final(taken)@.contains_key(key),
        value_taken is Some <==> old(taken)@.contains_key(key),
        value_taken matches Some(old_value) ==> old_value == old(taken)@[key],
        final(taken)@.contains_key(other) <==> old(taken)@.contains_key(other),
        old(taken)@.contains_key(other) ==> final(taken)@[other] == old(taken)@[other],
        !final(cleared)@.contains_key(key),
        old(cleared)@.contains_key(key) ==> changed,
{
    if cleared@.contains_key(key) {
        assert(!(cleared@ =~= Map::<K, V>::empty()));
    }
}

/// Storing the same entry any number of times, at least once, comes to storing it once: the key has
/// the value, and every other key keeps what it had. The keys have to hash and compare as keys
/// should.
pub proof fn law_storing_an_entry_keeps_the_others<K: Eq + Hash, V>(
    states: Seq<HashMap<K, V>>,
    key: K,
    value: V,
)
    requires
        obeys_key_model::<K>(),
        states.len() >= 2,
        forall|i: int|
            #![trigger states[i]]
            0 < i < states.len() ==> exists|content: &mut HashMap<K, V>, before: Option<V>|
                #[trigger] call_ensures(store_entry::<K, V>, (content, (key, value)), before)
                    && *content == states[i - 1] && *final(content) == states[i],
    ensures
        states.last()@ == states.first()@.insert(key, value),
    decreases states.len(),
{
    let last = states.len() - 1;
    assert(states[last] == states.last());
    if last > 1 {
        let rest = states.drop_last();
        assert forall|i: int| #![trigger rest[i]] 0 < i < rest.len() implies exists|
            content: &mut HashMap<K, V>,
            before: Option<V>,
        | #[trigger]
            call_ensures(store_entry::<K, V>, (content, (key, value)), before) && *content
                == rest[i - 1] && *final(content) == rest[i] by {
            assert(rest[i] == states[i]);
            assert(rest[i - 1] == states[i - 1]);
        }
        law_storing_an_entry_keeps_the_others(rest, key, value);
        assert(rest.last() == states[last - 1]);
        assert(rest.first() == states.first());
        assert(states.first()@.insert(key, value).insert(key, value) =~= states.first()@.insert(
            key,
            value,
        ));
    }
}

/// Setting a value stores it and counts one change. A value that is offered replaces the old one,
/// which is given back, unless the two compare equal: then it is handed back and nothing happens.
/// The epochs have to last.
pub proof fn law_state_operations<T: PartialEq>(
    set: &mut WatchableState<T>,
    offered: &mut WatchableState<T>,
    result: Result<T, T>,
    value: T,
)
    requires
        call_ensures(WatchableState::<T>::set, (set, value), ()),
        call_ensures(WatchableState::<T>::set_if_changed, (offered, value), result),
        set.epoch < u64::MAX,
        offered.epoch < u64::MAX,
    ensures
        final(set).value == value,
        final(set).epoch == old(set).epoch + 1,
        call_ensures(<T as PartialEq>::eq, (&old(offered).value, &value), result is Err),
        result matches Ok(replaced) ==> {
            &&& replaced == old(offered).value
            &&& final(offered).value == value
            &&& final(offered).epoch == old(offered).epoch + 1
        },
        result matches Err(refused) ==> refused == value && *final(offered) == *old(offered),
{
}

/// Modifying a value counts one change, and leaves what the function left. The epochs have to last.
pub proof fn law_state_modify<T, F: FnOnce(&mut T) -> R, R>(
    found: &mut WatchableState<T>,
    f: F,
    result: R,
)
    requires
        call_ensures(WatchableState::<T>::modify::<F, R>, (found, f), result),
        found.epoch < u64::MAX,
    ensures
        final(found).epoch == old(found).epoch + 1,
        exists|value: &mut T|
            *value == old(found).value
                && #[trigger] call_ensures(f, (value,), result)
                && *final(value)
                == final(found).value,
{
}

/// A look at a value that has changed since `epoch` gives a clone of it with its epoch, and a look
/// at one that has not gives nothing.
pub proof fn law_state_looks<T: Clone>(
    found: &WatchableState<T>,
    epoch: u64,
    news: Option<WatchableState<T>>,
    after: bool,
    value: T,
)
    requires
        call_ensures(WatchableState::<T>::since, (found, epoch), news),
        call_ensures(WatchableState::<T>::is_after, (found, epoch), after),
        call_ensures(WatchableState::<T>::clone_value, (found, ()), value),
    ensures
        after <==> found.epoch > epoch,
        news is Some <==> found.epoch > epoch,
        news matches Some(copy) ==> copy.epoch == found.epoch && cloned(found.value, copy.value),
        strictly_cloned(found.value, value),
{
}

/// Setting a value with history stores a clone of it, and gives a change from the old value itself
/// to the new one. Modifying one gives a change from a clone of the old value to a clone of the new
/// one.
pub proof fn law_history_operations<T: Clone, F: FnOnce(&mut T) -> R, R>(
    set: &mut T,
    value: T,
    change: ValueChange<T>,
    modified: &mut T,
    f: F,
    result: (R, ValueChange<T>),
)
    requires
        call_ensures(replace_value::<T>, (set, value), change),
        call_ensures(modify_value::<T, F, R>, (modified, f), result),
    ensures
        strictly_cloned(value, *final(set)),
        change.old == *old(set),
        change.new == value,
        exists|lent: &mut T|
            *lent == *old(modified) && #[trigger] call_ensures(f, (lent,), result.0) && *final(lent)
                == *final(modified),
        strictly_cloned(*old(modified), result.1.old),
        strictly_cloned(*final(modified), result.1.new),
{
}

/// Recording a change counts it. A log with room holds it behind the others. A full log does not
/// take it and gives up its oldest change as well; it hands out both. The epochs have to last.
pub proof fn law_recording_a_change<C>(
    found: &mut ChangeLog<C>,
    change: C,
    aftermath: Aftermath<C>,
)
    requires
        call_ensures(ChangeLog::<C>::record, (found, change), aftermath),
        found@.wf(),
        found@.epoch < u64::MAX,
    ensures
        final(found)@.epoch == old(found)@.epoch + 1,
        final(found)@.capacity == old(found)@.capacity,
        old(found)@.changes.len() < old(found)@.capacity ==> {
            &&& final(found)@.changes == old(found)@.changes.push(change)
            &&& aftermath.rejected is None
            &&& aftermath.evicted is None
        },
        old(found)@.changes.len() == old(found)@.capacity ==> {
            &&& final(found)@.changes == old(found)@.changes.subrange(
                1,
                old(found)@.changes.len() as int,
            )
            &&& aftermath.rejected == Some(change)
            &&& aftermath.evicted == Some(old(found)@.changes[0])
        },
        old(found)@.has_watchers ==> aftermath.woken@ == old(found)@.watchers
            && final(found)@.watchers.len() == 0,
{
    assert(found@.changes.len() > 0 ==> found@.changes.drop_first() =~= found@.changes.subrange(
        1,
        found@.changes.len() as int,
    ));
}

/// Restarting a log drops what it holds and records one change in its place. The epochs have to
/// last.
pub proof fn law_restarting_a_log<C>(
    found: &mut ChangeLog<C>,
    change: C,
    result: (Vec<C>, Aftermath<C>),
)
    requires
        call_ensures(ChangeLog::<C>::restart, (found, change), result),
        found@.wf(),
        found@.epoch < u64::MAX,
    ensures
        final(found)@.changes == seq![change],
        final(found)@.epoch == old(found)@.epoch + 1,
        final(found)@.capacity == old(found)@.capacity,
        result.0@ == old(found)@.changes,
        old(found)@.has_watchers ==> result.1.woken@ == old(found)@.watchers
            && final(found)@.watchers.len() == 0,
{
    assert(final(found)@.changes =~= seq![change]);
}

/// Collecting gives a watcher that is behind all that the log holds, and empties it; it tells that
/// changes were missed exactly if there are fewer of them than epochs since. One that is not behind
/// gets nothing and leaves the log alone.
pub proof fn law_collecting_from_a_log<C>(
    found: &mut ChangeLog<C>,
    since: u64,
    collected: Collected<C>,
)
    requires
        call_ensures(ChangeLog::<C>::collect, (found, since), collected),
    ensures
        collected.epoch == old(found)@.epoch,
        since >= old(found)@.epoch ==> collected.changes@.len() == 0 && !collected.missed
            && final(found)@ == old(found)@,
        since < old(found)@.epoch ==> {
            &&& collected.changes@ == old(found)@.changes
            &&& collected.missed <==> old(found)@.changes.len() < old(found)@.epoch - since
            &&& final(found)@.changes.len() == 0
            &&& final(found)@.watchers == old(found)@.watchers
            &&& final(found)@.has_watchers == old(found)@.has_watchers
        },
        final(found)@.epoch == old(found)@.epoch,
        final(found)@.capacity == old(found)@.capacity,
{
}

/// Asking a log for its epoch, and joining the tasks that wait for it, leave its changes alone.
pub proof fn law_looking_at_a_log_leaves_its_changes<C>(
    asked: &mut ChangeLog<C>,
    epoch: u64,
    joined: &mut ChangeLog<C>,
    waker: Waker,
)
    requires
        call_ensures(crate::log::lent_epoch::<C>, (asked, ()), epoch),
        call_ensures(ChangeLog::<C>::register, (joined, waker), ()),
    ensures
        epoch == old(asked)@.epoch,
        final(asked)@ == old(asked)@,
        final(joined)@.changes == old(joined)@.changes,
        final(joined)@.epoch == old(joined)@.epoch,
        final(joined)@.watchers == old(joined)@.watchers.push(waker),
        final(joined)@.has_watchers,
{
}

/// A change that is noted counts, and gives out every task that waits. Joining adds one at the end;
/// asking for the epoch changes nothing. The epochs have to last.
pub proof fn law_notifier_operations(
    noted: &mut Notifier,
    woken: VecDeque<Waker>,
    joined: &mut Notifier,
    waker: Waker,
    asked: &mut Notifier,
    epoch: u64,
)
    requires
        call_ensures(note_change, (noted, ()), woken),
        noted@.wf(),
        noted@.epoch < u64::MAX,
        call_ensures(Notifier::register, (joined, waker), ()),
        call_ensures(crate::notifier::lent_epoch, (asked, ()), epoch),
    ensures
        final(noted)@.epoch == old(noted)@.epoch + 1,
        woken@ == old(noted)@.watchers,
        final(noted)@.watchers.len() == 0,
        final(joined)@.epoch == old(joined)@.epoch,
        final(joined)@.watchers == old(joined)@.watchers.push(waker),
        final(joined)@.has_watchers,
        epoch == old(asked)@.epoch,
        final(asked)@ == old(asked)@,
{
    assert(woken@ =~= noted@.watchers);
}

/// A task leaves the list of those that wait only by being woken. The list is locked some times,
/// each time to put someone on it, or to take off all that are there, who are then woken. A task
/// that is on the list at some time is still there in the end, or was woken.
pub proof fn law_tasks_leave_the_list_only_woken(
    locked: Seq<&mut VecDeque<Waker>>,
    joining: Seq<Waker>,
    taken: Seq<VecDeque<Waker>>,
    start: int,
    waker: Waker,
)
    requires
        0 <= start < locked.len(),
        forall|i: int|
            #![trigger locked[i]]
            0 <= i < locked.len() ==> {
                ||| call_ensures(add_task, (locked[i], joining[i]), ())
                ||| call_ensures(take_tasks, (locked[i], ()), taken[i]) && forall|j: int|
                    0 <= j < taken[i]@.len() ==> crate::sync::woke(#[trigger] taken[i]@[j])
            },
        forall|i: int|
            #![trigger locked[i]]
            0 < i < locked.len() ==> *locked[i] == *final(locked[i - 1]),
        (*locked[start])@.contains(waker),
    ensures
        (*final(locked.last()))@.contains(waker) || crate::sync::woke(waker),
    decreases locked.len() - start,
{
    let found = *locked[start];
    let left = *final(locked[start]);
    let i = choose|i: int| 0 <= i < found@.len() && found@[i] == waker;
    assert(found@[i] == waker);
    if call_ensures(add_task, (locked[start], joining[start]), ()) {
        assert(left@[i] == waker);
    } else {
        assert(crate::sync::woke(taken[start]@[i]));
    }
    if !crate::sync::woke(waker) && start + 1 < locked.len() {
        assert(*locked[start + 1] == left);
        law_tasks_leave_the_list_only_woken(locked, joining, taken, start + 1, waker);
    }
}

} // verus!
