//! What a handle reads is what was written before, as long as nobody comes in between.
//!
//! The contracts of the handles name the functions that they run behind a lock. The laws here say
//! what comes of running one of them on what another one has left there.
use std::collections::HashMap;
use std::hash::Hash;

use vstd::pervasive::strictly_cloned;
use vstd::prelude::*;
use vstd::std_specs::hash::obeys_key_model;

use crate::change::{MapChange, ValueChange, VecChange};
use crate::history_value::replace_value;
use crate::lite::replace_with;
use crate::lite_map::{store_entry, take_entry};
use crate::lite_vec::{put_last, take_last};
use crate::log::{Aftermath, ChangeLog, Collected};
use crate::map::{get_entry, has_entry, insert_entry};
use crate::state::WatchableState;
use crate::sync::clone_of;
use crate::vec::{count_elements, get_cloned, push_value};

verus! {

/// A value that was set is read back: reading what setting has left gives a clone of it.
pub proof fn law_set_value_is_read_back<T: Clone>(value: T)
    ensures
        forall|found: &mut WatchableState<T>, got: T|
            #![trigger call_ensures(WatchableState::<T>::set, (found, value), ()), call_ensures(
                WatchableState::<T>::clone_value,
                (&*final(found), ()),
                got,
            )]
            call_ensures(WatchableState::<T>::set, (found, value), ()) && call_ensures(
                WatchableState::<T>::clone_value,
                (&*final(found), ()),
                got,
            ) ==> strictly_cloned(value, got),
        forall|found: &mut T, got: T|
            #![trigger call_ensures(replace_with::<T>, (found, value), ()), call_ensures(
                clone_of::<T>,
                (&*final(found), ()),
                got,
            )]
            call_ensures(replace_with::<T>, (found, value), ()) && call_ensures(
                clone_of::<T>,
                (&*final(found), ()),
                got,
            ) ==> strictly_cloned(value, got),
{
}

/// A value with history that was set is read back, as a clone of the clone that was stored.
pub proof fn law_set_value_with_history_is_read_back<T: Clone>(value: T)
    ensures
        forall|found: &mut T, change: ValueChange<T>, got: T|
            #![trigger call_ensures(replace_value::<T>, (found, value), change), call_ensures(
                clone_of::<T>,
                (&*final(found), ()),
                got,
            )]
            call_ensures(replace_value::<T>, (found, value), change) && call_ensures(
                clone_of::<T>,
                (&*final(found), ()),
                got,
            ) ==> strictly_cloned(value, *final(found)) && strictly_cloned(*final(found), got),
{
}

/// A watcher that was not ahead of a value is told when it is set: it answers that a change is
/// pending, and a look gives it a clone of the new value. The epochs have to last.
pub proof fn law_set_value_is_told<T: Clone>(value: T, epoch: u64)
    ensures
        forall|found: &mut WatchableState<T>, answer: bool|
            #![trigger call_ensures(WatchableState::<T>::set, (found, value), ()), call_ensures(
                WatchableState::<T>::is_after,
                (&*final(found), epoch),
                answer,
            )]
            call_ensures(WatchableState::<T>::set, (found, value), ()) && call_ensures(
                WatchableState::<T>::is_after,
                (&*final(found), epoch),
                answer,
            ) && epoch <= found.epoch < u64::MAX ==> answer,
        forall|found: &mut WatchableState<T>, news: Option<WatchableState<T>>|
            #![trigger call_ensures(WatchableState::<T>::set, (found, value), ()), call_ensures(
                WatchableState::<T>::since,
                (&*final(found), epoch),
                news,
            )]
            call_ensures(WatchableState::<T>::set, (found, value), ()) && call_ensures(
                WatchableState::<T>::since,
                (&*final(found), epoch),
                news,
            ) && epoch <= found.epoch < u64::MAX ==> (news matches Some(copy) && cloned(
                value,
                copy.value,
            ) && copy.epoch == found.epoch + 1),
{
}

/// An element that was pushed is read back from the end, and counted.
pub proof fn law_pushed_element_is_read_back<T: Clone>(value: T)
    ensures
        forall|found: &mut Vec<T>, change: VecChange<T>, index: usize, got: Option<T>|
            #![trigger call_ensures(push_value::<T>, (found, value), change), call_ensures(
                get_cloned::<T>,
                (&*final(found), index),
                got,
            )]
            call_ensures(push_value::<T>, (found, value), change) && call_ensures(
                get_cloned::<T>,
                (&*final(found), index),
                got,
            ) && index == found@.len() ==> (got matches Some(got) && cloned(
                value,
                final(found)@.last(),
            ) && strictly_cloned(final(found)@.last(), got)),
        forall|found: &mut Vec<T>, change: VecChange<T>, len: usize|
            #![trigger call_ensures(push_value::<T>, (found, value), change), call_ensures(
                count_elements::<T>,
                (&*final(found), ()),
                len,
            )]
            call_ensures(push_value::<T>, (found, value), change) && call_ensures(
                count_elements::<T>,
                (&*final(found), ()),
                len,
            ) ==> len == found@.len() + 1,
{
}

/// What was put at the end is what is taken out next, and the elements are as before then.
pub proof fn law_last_in_first_out<T>(value: T)
    ensures
        forall|found: &mut Vec<T>, again: &mut Vec<T>, got: Option<T>|
            #![trigger call_ensures(put_last::<T>, (found, value), ()), call_ensures(
                take_last::<T>,
                (again, ()),
                got,
            )]
            call_ensures(put_last::<T>, (found, value), ()) && call_ensures(
                take_last::<T>,
                (again, ()),
                got,
            ) && *again == *final(found) ==> got == Some(value) && final(again)@ =~= found@,
{
}

/// An entry that was inserted is read back under its key. The keys have to hash and compare as
/// keys should, and their clones have to be exact.
pub proof fn law_inserted_entry_is_read_back<K: Eq + Hash + Clone, V: Clone>(key: K, value: V)
    requires
        obeys_key_model::<K>(),
        crate::change::clones_exactly::<K>(),
    ensures
        forall|
            found: &mut HashMap<K, V>,
            result: (Option<V>, MapChange<K, V>),
            got: Option<V>,
        |
            #![trigger call_ensures(insert_entry::<K, V>, (found, (key, value)), result), call_ensures(
                get_entry::<K, V>,
                (&*final(found), &key),
                got,
            )]
            call_ensures(insert_entry::<K, V>, (found, (key, value)), result) && call_ensures(
                get_entry::<K, V>,
                (&*final(found), &key),
                got,
            ) ==> (got matches Some(got) && cloned(value, final(found)@[key]) && strictly_cloned(
                final(found)@[key],
                got,
            )),
{
}

/// An entry that was stored is there under its key, and gone once it was taken out. The keys have
/// to hash and compare as keys should.
pub proof fn law_stored_entry_is_there_until_taken<K: Eq + Hash, V>(key: K, value: V)
    requires
        obeys_key_model::<K>(),
    ensures
        forall|found: &mut HashMap<K, V>, before: Option<V>, present: bool|
            #![trigger call_ensures(store_entry::<K, V>, (found, (key, value)), before), call_ensures(
                has_entry::<K, V>,
                (&*final(found), &key),
                present,
            )]
            call_ensures(store_entry::<K, V>, (found, (key, value)), before) && call_ensures(
                has_entry::<K, V>,
                (&*final(found), &key),
                present,
            ) ==> present && final(found)@[key] == value,
        forall|found: &mut HashMap<K, V>, taken: Option<V>, present: bool|
            #![trigger call_ensures(take_entry::<K, V>, (found, &key), taken), call_ensures(
                has_entry::<K, V>,
                (&*final(found), &key),
                present,
            )]
            call_ensures(take_entry::<K, V>, (found, &key), taken) && call_ensures(
                has_entry::<K, V>,
                (&*final(found), &key),
                present,
            ) ==> !present && taken == crate::map::entry(found@, key),
{
}

/// A change that was recorded while there was room is collected by a watcher that was not ahead,
/// after those that were there before it. The epochs have to last.
pub proof fn law_recorded_change_is_collected<C>(change: C, since: u64)
    ensures
        forall|
            found: &mut ChangeLog<C>,
            aftermath: Aftermath<C>,
            again: &mut ChangeLog<C>,
            collected: Collected<C>,
        |
            #![trigger call_ensures(ChangeLog::<C>::record, (found, change), aftermath), call_ensures(
                ChangeLog::<C>::collect,
                (again, since),
                collected,
            )]
            call_ensures(ChangeLog::<C>::record, (found, change), aftermath) && call_ensures(
                ChangeLog::<C>::collect,
                (again, since),
                collected,
            ) && *again == *final(found) && found@.changes.len() < found@.capacity && since
                <= found@.epoch < u64::MAX ==> {
                &&& collected.changes@ == found@.changes.push(change)
                &&& collected.epoch == found@.epoch + 1
                &&& collected.is_news()
            },
{
}

} // verus!
