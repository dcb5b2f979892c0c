//! The unbounded first-in, first-out queue under a channel.

use crossbeam_epoch::Guard;
use std::collections::VecDeque;
use vstd::prelude::*;

verus! {

/// The epoch guard of `crossbeam_epoch`: while one is alive, the thread that
/// made it is pinned. Nothing inside it is visible to proofs.
#[verifier::external_type_specification]
#[verifier::external_body]
pub struct ExGuard(crossbeam_epoch::Guard);

/// `crossbeam_epoch::pin` pins the current thread and returns the guard that
/// keeps it pinned. Nothing is claimed of the guard.
pub assume_specification[ crossbeam_epoch::pin ]() -> (guard: Guard);

/// The oldest value of `queue`, if there is one.
pub open spec fn head<T>(queue: Seq<T>) -> Option<T> {
    if queue.len() > 0 {
        Some(queue[0])
    } else {
        None
    }
}

/// What is left of `queue` once its oldest value is taken; an empty queue
/// stays as it is.
pub open spec fn tail<T>(queue: Seq<T>) -> Seq<T> {
    if queue.len() > 0 {
        queue.drop_first()
    } else {
        queue
    }
}

/// An unbounded queue. Its view is the sequence of the values it holds,
/// oldest first.
pub struct Queue<T> {
    items: VecDeque<T>,
}

impl<T> View for Queue<T> {
    type V = Seq<T>;

    closed spec fn view(&self) -> Seq<T> {
        self.items@
    }
}

impl<T> Queue<T> {
    /// An empty queue.
    pub fn new() -> (queue: Self)
        ensures
            queue@ == Seq::<T>::empty(),
    {
        Queue { items: VecDeque::new() }
    }

    /// Appends `value` behind everything already queued. The guard shows that
    /// the calling thread is pinned for the length of the operation.
    pub fn push(&mut self, value: T, guard: &Guard)
        ensures
            final(self)@ == old(self)@.push(value),
    {
        let _ = guard;
        self.items.push_back(value);
    }

    /// Removes and returns the oldest value, or returns `None` and changes
    /// nothing when the queue is empty. The guard shows that the calling
    /// thread is pinned for the length of the operation.
    pub fn try_pop(&mut self, guard: &Guard) -> (popped: Option<T>)
        ensures
            popped == head(old(self)@),
            final(self)@ == tail(old(self)@),
    {
        let _ = guard;
        let popped = self.items.pop_front();
        proof {
            if old(self)@.len() > 0 {
                assert(final(self)@ =~= old(self)@.drop_first());
            }
        }
        popped
    }

    /// How many values are queued.
    pub fn len(&self) -> (n: usize)
        ensures
            n == self@.len(),
    {
        self.items.len()
    }

    /// Whether nothing is queued.
    pub fn is_empty(&self) -> (empty: bool)
        ensures
            empty == (self@.len() == 0),
    {
        self.items.len() == 0
    }
}

} // verus!
