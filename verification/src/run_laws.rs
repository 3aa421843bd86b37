//! What a watcher is told of a run of operations on a collection.
//!
//! Reading takes a shared reference to the content, so a run consists of the operations that
//! write. Each of them gives one change, and each change is recorded once.
use std::collections::HashMap;
use std::hash::Hash;

use vstd::prelude::*;
use vstd::std_specs::hash::obeys_key_model;

use crate::change::{MapChange, VecChange};
use crate::log::{Aftermath, ChangeLog, Collected};
use crate::map::{clear_entries, insert_entry, remove_entry};
use crate::vec::{
    clear_values, insert_value, pop_value, push_value, remove_value, replace_element,
};

verus! {

/// What a log holds after a run, as long as there is room: all changes of it, in order.
proof fn lemma_log_run<C>(
    logs: Seq<&mut ChangeLog<C>>,
    changes: Seq<C>,
    aftermaths: Seq<Aftermath<C>>,
    last: int,
)
    requires
        0 <= last < logs.len(),
        logs.len() == changes.len(),
        logs.len() == aftermaths.len(),
        forall|i: int|
            #![trigger logs[i]]
            0 <= i < logs.len() ==> call_ensures(
                ChangeLog::<C>::record,
                (logs[i], changes[i]),
                aftermaths[i],
            ),
        forall|i: int| #![trigger logs[i]] 0 < i < logs.len() ==> *logs[i] == *final(logs[i - 1]),
        (*logs[0])@.wf(),
        (*logs[0])@.changes.len() == 0,
        logs.len() <= (*logs[0])@.capacity,
        (*logs[0])@.epoch + logs.len() <= u64::MAX,
    ensures
        (*final(logs[last]))@.wf(),
        (*final(logs[last]))@.changes == changes.take(last + 1),
        (*final(logs[last]))@.capacity == (*logs[0])@.capacity,
        (*final(logs[last]))@.epoch == (*logs[0])@.epoch + last + 1,
    decreases last,
{
    if last > 0 {
        lemma_log_run(logs, changes, aftermaths, last - 1);
        assert(*logs[last] == *final(logs[last - 1]));
        assert(changes.take(last).push(changes[last]) =~= changes.take(last + 1));
    } else {
        assert((*logs[0])@.changes.push(changes[0]) =~= changes.take(1));
    }
}

/// A watcher that had caught up with an empty log collects, after some changes that there was
/// room for, each of them once, in the order in which they were recorded, and misses none. The
/// epochs have to last.
pub proof fn law_each_recorded_change_is_collected_once<C>(
    logs: Seq<&mut ChangeLog<C>>,
    changes: Seq<C>,
    aftermaths: Seq<Aftermath<C>>,
    left: &mut ChangeLog<C>,
    collected: Collected<C>,
)
    requires
        0 < logs.len(),
        logs.len() == changes.len(),
        logs.len() == aftermaths.len(),
        forall|i: int|
            #![trigger logs[i]]
            0 <= i < logs.len() ==> call_ensures(
                ChangeLog::<C>::record,
                (logs[i], changes[i]),
                aftermaths[i],
            ),
        forall|i: int| #![trigger logs[i]] 0 < i < logs.len() ==> *logs[i] == *final(logs[i - 1]),
        (*logs[0])@.wf(),
        (*logs[0])@.changes.len() == 0,
        logs.len() <= (*logs[0])@.capacity,
        (*logs[0])@.epoch + logs.len() <= u64::MAX,
        *left == *final(logs.last()),
        call_ensures(ChangeLog::<C>::collect, (left, (*logs[0])@.epoch), collected),
    ensures
        collected.changes@ == changes,
        !collected.missed,
        collected.epoch == (*logs[0])@.epoch + logs.len(),
        final(left)@.changes.len() == 0,
{
    let last = logs.len() - 1;
    lemma_log_run(logs, changes, aftermaths, last);
    assert(changes.take(last + 1) =~= changes);
}

/// A run of operations on a vec tells one change each, the one that the operation made. Whoever
/// has the elements from before and goes through these changes in order has the elements from
/// after it. This takes a type whose clones are exact.
pub proof fn law_vec_run_is_told<T: Clone>(
    contents: Seq<&mut Vec<T>>,
    changes: Seq<VecChange<T>>,
    indices: Seq<usize>,
    values: Seq<T>,
    taken: Seq<Option<T>>,
)
    requires
        crate::change::clones_exactly::<T>(),
        0 < contents.len(),
        contents.len() == changes.len(),
        forall|i: int|
            #![trigger contents[i]]
            0 <= i < contents.len() ==> {
                ||| call_ensures(push_value::<T>, (contents[i], values[i]), changes[i])
                ||| call_ensures(pop_value::<T>, (contents[i], ()), (taken[i], Some(changes[i])))
                ||| call_ensures(
                    insert_value::<T>,
                    (contents[i], (indices[i], values[i])),
                    Ok(changes[i]),
                )
                ||| call_ensures(
                    remove_value::<T>,
                    (contents[i], indices[i]),
                    (taken[i], Some(changes[i])),
                )
                ||| call_ensures(
                    replace_element::<T>,
                    (contents[i], (indices[i], values[i])),
                    Ok(changes[i]),
                )
                ||| call_ensures(clear_values::<T>, (contents[i], ()), Some(changes[i]))
            },
        forall|i: int|
            #![trigger contents[i]]
            0 < i < contents.len() ==> *contents[i] == *final(contents[i - 1]),
    ensures
        crate::change::replay_vec((*contents[0])@, changes) == (*final(contents.last()))@,
{
    let states = Seq::new(
        contents.len() + 1,
        |i: int|
            if i == 0 {
                (*contents[0])@
            } else {
                (*final(contents[i - 1]))@
            },
    );
    assert forall|i: int| 0 <= i < changes.len() implies (#[trigger] changes[i]).tells(
        states[i],
        states[i + 1],
    ) by {
        let content = contents[i];
        assert(states[i] == (*contents[i])@);
        assert(states[i + 1] == (*final(contents[i]))@);
        crate::rebuild_laws::law_vec_operations_tell(indices[i], values[i]);
    }
    crate::change::law_vec_changes_replay(states, changes);
}

/// A run of operations on a map tells one change each, the one that the operation made. Whoever
/// has the entries from before and goes through these changes in order has the entries from
/// after it. This takes types whose clones are exact, and keys that hash and compare as keys
/// should.
pub proof fn law_map_run_is_told<K: Eq + Hash + Clone, V: Clone>(
    contents: Seq<&mut HashMap<K, V>>,
    changes: Seq<MapChange<K, V>>,
    keys: Seq<&K>,
    entries: Seq<(K, V)>,
    taken: Seq<Option<V>>,
)
    requires
        obeys_key_model::<K>(),
        crate::change::clones_exactly::<K>(),
        crate::change::clones_exactly::<V>(),
        0 < contents.len(),
        contents.len() == changes.len(),
        forall|i: int|
            #![trigger contents[i]]
            0 <= i < contents.len() ==> {
                ||| call_ensures(
                    insert_entry::<K, V>,
                    (contents[i], entries[i]),
                    (taken[i], changes[i]),
                )
                ||| call_ensures(
                    remove_entry::<K, V>,
                    (contents[i], keys[i]),
                    (taken[i], Some(changes[i])),
                )
                ||| call_ensures(clear_entries::<K, V>, (contents[i], ()), Some(changes[i]))
            },
        forall|i: int|
            #![trigger contents[i]]
            0 < i < contents.len() ==> *contents[i] == *final(contents[i - 1]),
    ensures
        crate::change::replay_map((*contents[0])@, changes) == (*final(contents.last()))@,
{
    let states = Seq::new(
        contents.len() + 1,
        |i: int|
            if i == 0 {
                (*contents[0])@
            } else {
                (*final(contents[i - 1]))@
            },
    );
    assert forall|i: int| 0 <= i < changes.len() implies (#[trigger] changes[i]).tells(
        states[i],
        states[i + 1],
    ) by {
        let content = contents[i];
        assert(states[i] == (*contents[i])@);
        assert(states[i + 1] == (*final(contents[i]))@);
        crate::rebuild_laws::law_map_operations_tell(keys[i], entries[i]);
    }
    crate::change::law_map_changes_replay(states, changes);
}

} // verus!
