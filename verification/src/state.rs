//! A value together with the epoch of its last change.
//!
//! A watchable holds one behind its lock, and each of its watchers holds a copy
//! from the last time it looked. Everything that a watcher decides, it decides by
//! comparing the two.
use vstd::pervasive::strictly_cloned;
use vstd::prelude::*;

use crate::epoch::{bump, FIRST_EPOCH};

verus! {

/// A value and the epoch of its last change.
#[derive(Debug)]
pub struct WatchableState<T> {
    /// The value.
    pub value: T,
    /// How many changes led to it, counted from the first epoch.
    pub epoch: u64,
}

/// `r` is what `PartialEq::eq` may answer on `a` and `b`.
pub open spec fn eq_answers<T: PartialEq>(a: T, b: T, r: bool) -> bool {
    call_ensures(<T as PartialEq>::eq, (&a, &b), r)
}

impl<T> WatchableState<T> {
    /// A state that holds `value`, unchanged so far.
    pub open spec fn initial(value: T) -> Self {
        WatchableState { value, epoch: FIRST_EPOCH }
    }

    /// The state after `value` was stored.
    pub open spec fn after_set(self, value: T) -> Self {
        WatchableState { value, epoch: crate::epoch::next_epoch(self.epoch) }
    }

    /// The state has changed since `seen` was taken from it.
    pub open spec fn newer_than(self, seen: Self) -> bool {
        self.epoch > seen.epoch
    }

    /// Wraps a value that has not changed yet.
    pub fn new(value: T) -> (state: Self)
        ensures
            state == Self::initial(value),
    {
        WatchableState { value, epoch: FIRST_EPOCH }
    }

    /// Stores `value`.
    pub fn set(&mut self, value: T)
        ensures
            *final(self) == old(self).after_set(value),
    {
        self.value = value;
        bump(&mut self.epoch);
    }

    /// Stores `value` only if it differs from the current one. Returns the old value
    /// if it was replaced, and hands `value` back if not.
    pub fn set_if_changed(&mut self, value: T) -> (result: Result<T, T>) where T: PartialEq
        ensures
            eq_answers(old(self).value, value, result is Err),
            match result {
                Ok(replaced) => replaced == old(self).value && *final(self) == old(
                    self,
                ).after_set(value),
                Err(refused) => refused == value && *final(self) == *old(self),
            },
    {
        if self.value == value {
            Err(value)
        } else {
            let mut replaced = value;
            std::mem::swap(&mut self.value, &mut replaced);
            bump(&mut self.epoch);
            Ok(replaced)
        }
    }

    /// Whether the state has changed since `epoch`.
    pub fn is_after(&self, epoch: u64) -> (after: bool)
        ensures
            after == (self.epoch > epoch),
    {
        self.epoch > epoch
    }

    /// Runs `f` on the value.
    pub fn read<F, R>(&self, f: F) -> (result: R) where F: FnOnce(&T) -> R
        requires
            call_requires(f, (&self.value,)),
        ensures
            call_ensures(f, (&self.value,), result),
    {
        f(&self.value)
    }

    /// Changes the value in place with `f`.
    pub fn modify<F, R>(&mut self, f: F) -> (result: R) where F: FnOnce(&mut T) -> R
        requires
            forall|value: &mut T| *value == old(self).value ==> call_requires(f, (value,)),
        ensures
            exists|value: &mut T|
                {
                    &&& *value == old(self).value
                    &&& #[trigger] call_ensures(f, (value,), result)
                    &&& *final(value) == final(self).value
                },
            final(self).epoch == crate::epoch::next_epoch(old(self).epoch),
    {
        let result = f(&mut self.value);
        bump(&mut self.epoch);
        result
    }
}

impl<T: Clone> WatchableState<T> {
    /// `copy` was cloned from this state.
    pub open spec fn copies(self, copy: Self) -> bool {
        copy.epoch == self.epoch && cloned(self.value, copy.value)
    }

    /// A watcher that saw `pre` before looks at `latest` and sees `post` then: a copy
    /// of it if it is newer, and what it saw before if not.
    pub open spec fn catches_up(pre: Self, latest: Self, post: Self) -> bool {
        if latest.newer_than(pre) {
            latest.copies(post)
        } else {
            post == pre
        }
    }

    /// A watcher that saw `pre` before looks for its source. It sees `post` then, and
    /// takes it for a change or not, by what it found: the `latest` state, or nothing
    /// if the source is gone.
    pub open spec fn looks(pre: Self, latest: Option<Self>, post: Self, changed: bool) -> bool {
        match latest {
            Some(latest) => Self::catches_up(pre, latest, post) && changed == latest.newer_than(
                pre,
            ),
            None => post == pre && !changed,
        }
    }

    /// `news` is what the state has to tell since `epoch`: a copy of it if it has
    /// changed, and nothing if not.
    pub open spec fn tells(self, epoch: u64, news: Option<Self>) -> bool {
        match news {
            Some(copy) => self.epoch > epoch && self.copies(copy),
            None => self.epoch <= epoch,
        }
    }

    /// A copy of the state, if it has changed since `epoch`.
    pub fn since(&self, epoch: u64) -> (news: Option<Self>)
        ensures
            self.tells(epoch, news),
    {
        if self.epoch > epoch {
            Some(self.clone())
        } else {
            None
        }
    }

    /// A clone of the value.
    pub fn clone_value(&self, _nothing: ()) -> (value: T)
        ensures
            strictly_cloned(self.value, value),
    {
        self.value.clone()
    }

    /// Takes in what a state had to tell since this one was taken from it. Returns whether
    /// there was a change.
    pub fn take_in(&mut self, news: Option<Self>) -> (changed: bool)
        ensures
            changed == news is Some,
            *final(self) == match news {
                Some(copy) => copy,
                None => *old(self),
            },
        opens_invariants none
    {
        match news {
            Some(copy) => {
                *self = copy;
                true
            },
            None => false,
        }
    }
}

impl<T: Clone> Clone for WatchableState<T> {
    fn clone(&self) -> (copy: Self)
        ensures
            self.copies(copy),
    {
        WatchableState { value: self.value.clone(), epoch: self.epoch }
    }
}

} // verus!
