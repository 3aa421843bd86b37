//! What holds of a watched value, whoever changes it and whoever watches.
use vstd::prelude::*;

use crate::state::WatchableState;

verus! {

/// The state after each of `values` was stored, one after the other.
pub open spec fn after_all<T>(state: WatchableState<T>, values: Seq<T>) -> WatchableState<T>
    decreases values.len(),
{
    if values.len() == 0 {
        state
    } else {
        after_all(state, values.drop_last()).after_set(values.last())
    }
}

/// Storing values one after the other counts one epoch for each, and the last value stays.
proof fn lemma_after_all<T>(state: WatchableState<T>, values: Seq<T>)
    requires
        state.epoch + values.len() <= u64::MAX,
    ensures
        after_all(state, values).epoch == state.epoch + values.len(),
        values.len() > 0 ==> after_all(state, values).value == values.last(),
    decreases values.len(),
{
    if values.len() > 0 {
        lemma_after_all(state, values.drop_last());
    }
}

/// A new watcher has seen the current value: it is not behind, and a look finds no change.
pub proof fn law_new_watcher_is_up_to_date<T: Clone>(
    state: WatchableState<T>,
    seen: WatchableState<T>,
    post: WatchableState<T>,
    changed: bool,
)
    requires
        state.copies(seen),
        WatchableState::looks(seen, Some(state), post, changed),
    ensures
        cloned(state.value, seen.value),
        !state.newer_than(seen),
        !changed,
        post == seen,
{
}

/// However many values are stored since a watcher last caught up, it is behind, its next look
/// reports one change and shows the latest value, and then it is not behind any more. The
/// values in between are skipped. The epochs have to last for all of them.
pub proof fn law_watcher_sees_latest_value<T: Clone>(
    state: WatchableState<T>,
    values: Seq<T>,
    seen: WatchableState<T>,
    post: WatchableState<T>,
    changed: bool,
)
    requires
        seen.epoch <= state.epoch,
        values.len() > 0,
        state.epoch + values.len() <= u64::MAX,
        WatchableState::looks(seen, Some(after_all(state, values)), post, changed),
    ensures
        after_all(state, values).newer_than(seen),
        changed,
        cloned(values.last(), post.value),
        !after_all(state, values).newer_than(post),
{
    lemma_after_all(state, values);
}

/// Two looks at the same state: the second finds nothing new, whatever the first found.
pub proof fn law_second_look_finds_nothing<T: Clone>(
    latest: WatchableState<T>,
    seen: WatchableState<T>,
    first: WatchableState<T>,
    changed: bool,
    second: WatchableState<T>,
    changed_again: bool,
)
    requires
        WatchableState::looks(seen, Some(latest), first, changed),
        WatchableState::looks(first, Some(latest), second, changed_again),
    ensures
        !changed_again,
        second == first,
{
}

/// A watcher is never ahead of a state that it has looked at before, and every look keeps it
/// so: what it has seen never gets older.
pub proof fn law_looks_never_go_back<T: Clone>(
    latest: Option<WatchableState<T>>,
    seen: WatchableState<T>,
    post: WatchableState<T>,
    changed: bool,
)
    requires
        WatchableState::looks(seen, latest, post, changed),
    ensures
        post.epoch >= seen.epoch,
        changed == (post.epoch > seen.epoch),
        latest matches Some(found) ==> (seen.epoch <= found.epoch ==> post.epoch == found.epoch),
{
}

/// A watcher whose source is gone keeps the value that it saw last, and reports no change.
pub proof fn law_value_outlives_source<T: Clone>(
    seen: WatchableState<T>,
    post: WatchableState<T>,
    changed: bool,
)
    requires
        WatchableState::looks(seen, None, post, changed),
    ensures
        !changed,
        post == seen,
{
}

/// A pending change is what the next update reports: whatever the watcher finds, it says
/// that a change is pending exactly if an update would report one.
pub proof fn law_pending_change_is_reported<T: Clone>(
    latest: Option<WatchableState<T>>,
    seen: WatchableState<T>,
    post: WatchableState<T>,
    changed: bool,
)
    requires
        WatchableState::looks(seen, latest, post, changed),
    ensures
        crate::shared::is_news(latest, seen) == changed,
{
}

} // verus!
