//! The queue as a mathematical object: a sequence of items in arrival order
//! and the bound on its length.
//!
//! Every contract of the executable queue is stated over this model, and the
//! laws about whole runs of operations are proved of it.

use vstd::prelude::*;

verus! {

/// How far a queue is filled. A queue of capacity one is never `Partial`.
#[derive(Clone, Copy, Debug, PartialEq, Eq)]
pub enum Fill {
    /// Nothing is stored: a consumer has to wait.
    Empty,
    /// Something is stored and there is room for more: nobody has to wait.
    Partial,
    /// As many items are stored as the capacity allows: a producer has to wait.
    Full,
}

/// What a queue holds at an instant at which no operation is under way.
///
/// `items[0]` is the head, the item that has waited longest.
#[verifier::ext_equal]
pub struct QueueModel<T> {
    pub items: Seq<T>,
    pub capacity: nat,
}

impl<T> QueueModel<T> {
    /// The queue as it is made: nothing stored, the bound as given.
    pub open spec fn empty(capacity: nat) -> Self {
        QueueModel { items: Seq::empty(), capacity }
    }

    /// The bound is positive and the stored items respect it.
    pub open spec fn wf(self) -> bool {
        &&& 0 < self.capacity
        &&& self.items.len() <= self.capacity
    }

    pub open spec fn is_empty(self) -> bool {
        self.items.len() == 0
    }

    pub open spec fn is_full(self) -> bool {
        self.items.len() >= self.capacity
    }

    /// Which of the three states the queue is in.
    pub open spec fn fill(self) -> Fill {
        if self.is_empty() {
            Fill::Empty
        } else if self.is_full() {
            Fill::Full
        } else {
            Fill::Partial
        }
    }

    /// The state after an attempt to store `item`: appended at the tail where
    /// there is room, unchanged where the queue is full.
    pub open spec fn put(self, item: T) -> Self {
        if self.is_full() {
            self
        } else {
            QueueModel { items: self.items.push(item), capacity: self.capacity }
        }
    }

    /// The state after an attempt to remove the head: the rest of the items in
    /// their order, or the same empty queue.
    pub open spec fn take(self) -> Self {
        if self.is_empty() {
            self
        } else {
            QueueModel { items: self.items.drop_first(), capacity: self.capacity }
        }
    }
}

} // verus!
