//! The bounded queue that holds changes until a watcher collects them.
use crossbeam::queue::ArrayQueue;
use vstd::prelude::*;

verus! {

/// `crossbeam`'s bounded queue.
#[verifier::external_type_specification]
#[verifier::external_body]
#[verifier::reject_recursive_types(T)]
pub struct ExArrayQueue<T>(ArrayQueue<T>);

/// A bounded first-in, first-out queue of changes.
///
/// The queue itself shows nothing of what it holds, so the elements and the capacity
/// are kept alongside it, for proofs only. All three are private, and only the
/// wrappers of the queue's own functions get at them: each of them says what becomes of both.
#[verifier::reject_recursive_types(C)]
pub struct ChangeQueue<C> {
    queue: ArrayQueue<C>,
    capacity: Ghost<nat>,
    items: Ghost<Seq<C>>,
}

impl<C> ChangeQueue<C> {
    /// What the queue holds, the oldest first.
    pub closed spec fn items(self) -> Seq<C> {
        self.items@
    }

    /// How much the queue can hold.
    pub closed spec fn capacity(self) -> nat {
        self.capacity@
    }

    /// `ArrayQueue::new`: an empty queue with room for `capacity` changes.
    ///
    /// It panics on a capacity of zero, and on one too large to double. Running out of
    /// memory is not accounted for, as it is not for any container that allocates.
    #[verifier::external_body]
    pub(crate) fn new(capacity: usize) -> (queue: Self)
        requires
            0 < capacity <= isize::MAX,
        ensures
            queue.items() == Seq::<C>::empty(),
            queue.capacity() == capacity,
    {
        ChangeQueue {
            queue: ArrayQueue::new(capacity),
            capacity: Ghost(capacity as nat),
            items: Ghost(Seq::empty()),
        }
    }

    /// `ArrayQueue::push`: puts `change` at the end, or hands it back if the queue is
    /// full.
    #[verifier::external_body]
    pub(crate) fn push(&mut self, change: C) -> (result: Result<(), C>)
        ensures
            final(self).capacity() == old(self).capacity(),
            result is Ok == (old(self).items().len() < old(self).capacity()),
            match result {
                Ok(_) => final(self).items() == old(self).items().push(change),
                Err(refused) => refused == change && final(self).items() == old(self).items(),
            },
    {
        self.queue.push(change)
    }

    /// `ArrayQueue::pop`: takes the oldest change, if there is any.
    #[verifier::external_body]
    pub(crate) fn pop(&mut self) -> (oldest: Option<C>)
        ensures
            final(self).capacity() == old(self).capacity(),
            match oldest {
                Some(change) => {
                    &&& old(self).items().len() > 0
                    &&& change == old(self).items()[0]
                    &&& final(self).items() == old(self).items().drop_first()
                },
                None => {
                    &&& old(self).items().len() == 0
                    &&& final(self).items() == old(self).items()
                },
            },
    {
        self.queue.pop()
    }

    /// Takes everything, the oldest first.
    pub fn take_all(&mut self) -> (changes: Vec<C>)
        ensures
            changes@ == old(self).items(),
            final(self).items() == Seq::<C>::empty(),
            final(self).capacity() == old(self).capacity(),
    {
        let mut changes: Vec<C> = Vec::new();
        assert(changes@ + self.items() =~= old(self).items());
        loop
            invariant
                changes@ + self.items() == old(self).items(),
                self.capacity() == old(self).capacity(),
            ensures
                self.items().len() == 0,
            decreases self.items().len(),
        {
            let ghost before = self.items();
            let ghost collected = changes@;
            match self.pop() {
                Some(change) => {
                    changes.push(change);
                    assert(changes@ + self.items() =~= collected + before);
                },
                None => break,
            }
        }
        assert(changes@ =~= old(self).items());
        assert(self.items() =~= Seq::<C>::empty());
        changes
    }
}

} // verus!
