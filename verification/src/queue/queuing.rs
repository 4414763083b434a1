//! The bounded queue: its storage, its bound, and one step of each of its two
//! operations.

use std::collections::VecDeque;
use vstd::prelude::*;
use crate::queue::model::{Fill, QueueModel};
use crate::queue::sizing::{capacity_for, default_capacity, QueueError};

verus! {

/// The two wakeup channels of a queue. Neither carries a payload.
#[derive(Clone, Copy, Debug, PartialEq, Eq)]
pub enum Signal {
    /// Fired when an item has left: a producer may find room.
    SpaceAvailable,
    /// Fired when an item has arrived: a consumer may find work.
    ItemAvailable,
}

/// What one attempt to store a task came to, and what its caller does next.
#[derive(Debug, PartialEq, Eq)]
pub enum EnqueueStep<T> {
    /// The task is stored at the tail. Once the caller has given up its
    /// exclusive access, it wakes one waiter on `notify`.
    Stored { notify: Signal },
    /// The queue is full and the task comes back. The caller gives up its
    /// exclusive access, waits on `wait_on` and tries again.
    Full { task: T, wait_on: Signal },
}

/// What one attempt to remove the head came to, and what its caller does next.
#[derive(Debug, PartialEq, Eq)]
pub enum DequeueStep<T> {
    /// The head has left the queue. Once the caller has given up its exclusive
    /// access, it wakes one waiter on `notify`.
    Taken { item: T, notify: Signal },
    /// The queue is empty. The caller gives up its exclusive access, waits on
    /// `wait_on` and tries again.
    Empty { wait_on: Signal },
}

/// The result that an attempt to store `task` owes to a queue in state `before`.
pub open spec fn enqueue_step<T>(before: QueueModel<T>, task: T) -> EnqueueStep<T> {
    if before.is_full() {
        EnqueueStep::Full { task, wait_on: Signal::SpaceAvailable }
    } else {
        EnqueueStep::Stored { notify: Signal::ItemAvailable }
    }
}

/// The result that an attempt to remove the head owes to a queue in state `before`.
pub open spec fn dequeue_step<T>(before: QueueModel<T>) -> DequeueStep<T> {
    if before.is_empty() {
        DequeueStep::Empty { wait_on: Signal::ItemAvailable }
    } else {
        DequeueStep::Taken { item: before.items[0], notify: Signal::SpaceAvailable }
    }
}

/// A bounded queue of `T`, first in, first out.
pub struct MyQueue<T> {
    q: VecDeque<T>,
    max_size: usize,
}

impl<T> View for MyQueue<T> {
    type V = QueueModel<T>;

    closed spec fn view(&self) -> QueueModel<T> {
        QueueModel { items: self.q@, capacity: self.max_size as nat }
    }
}

impl<T> MyQueue<T> {
    #[verifier::type_invariant]
    spec fn within_bound(self) -> bool {
        self@.wf()
    }

    /// Makes an empty queue that holds at most `max_size` items. A queue of
    /// capacity zero could never accept an item and is refused.
    pub fn new(max_size: usize) -> (made: Result<MyQueue<T>, QueueError>)
        ensures
            made is Err <==> max_size == 0,
            made matches Err(e) ==> e == QueueError::ZeroCapacity,
            made matches Ok(queue) ==> queue@ == QueueModel::<T>::empty(max_size as nat),
    {
        if max_size == 0 {
            Err(QueueError::ZeroCapacity)
        } else {
            Ok(MyQueue { q: VecDeque::new(), max_size })
        }
    }

    /// Makes an empty queue of the default capacity for a machine that
    /// reports `parallelism`, where `None` stands for a platform that could
    /// not tell. No capacity is made up where none can be computed.
    pub fn with_default_capacity(parallelism: Option<usize>) -> (made: Result<
        MyQueue<T>,
        QueueError,
    >)
        ensures
            match capacity_for(parallelism) {
                Ok(capacity) => made matches Ok(queue) && queue@ == QueueModel::<T>::empty(
                    capacity as nat,
                ),
                Err(why) => made matches Err(e) && e == why,
            },
    {
        match default_capacity(parallelism) {
            Ok(capacity) => MyQueue::new(capacity),
            Err(why) => Err(why),
        }
    }

    /// The number of items stored, which never exceeds the capacity.
    pub fn len(&self) -> (n: usize)
        ensures
            n == self@.items.len(),
            n <= self@.capacity,
    {
        proof {
            use_type_invariant(self);
        }
        self.q.len()
    }

    /// The bound that the queue was made with.
    pub fn capacity(&self) -> (n: usize)
        ensures
            n == self@.capacity,
            n > 0,
    {
        proof {
            use_type_invariant(self);
        }
        self.max_size
    }

    /// Whether the queue is empty, full or in between.
    pub fn fill(&self) -> (fill: Fill)
        ensures
            fill == self@.fill(),
    {
        let stored = self.q.len();
        if stored == 0 {
            Fill::Empty
        } else if stored >= self.max_size {
            Fill::Full
        } else {
            Fill::Partial
        }
    }

    /// One step of storing `task`, made under exclusive access to the queue.
    ///
    /// Where there is room the task goes to the tail; where the queue is at
    /// capacity nothing changes and the task is handed back, so that the
    /// caller can suspend and offer it again after a wakeup.
    pub fn enqueue(&mut self, task: T) -> (step: EnqueueStep<T>)
        ensures
            step == enqueue_step(old(self)@, task),
            final(self)@ == old(self)@.put(task),
            final(self)@.wf(),
    {
        proof {
            use_type_invariant(&*self);
        }
        if self.q.len() >= self.max_size {
            EnqueueStep::Full { task, wait_on: Signal::SpaceAvailable }
        } else {
            // The storage is taken out, changed and put back, so that `self`
            // is within its bound at every point in between.
            let mut q = VecDeque::new();
            std::mem::swap(&mut q, &mut self.q);
            q.push_back(task);
            self.q = q;
            EnqueueStep::Stored { notify: Signal::ItemAvailable }
        }
    }

    /// One step of removing the head, made under exclusive access to the queue.
    ///
    /// Where an item is stored the oldest one leaves; where the queue is
    /// empty nothing changes, so that the caller can suspend and ask again
    /// after a wakeup.
    pub fn dequeue(&mut self) -> (step: DequeueStep<T>)
        ensures
            step == dequeue_step(old(self)@),
            final(self)@ == old(self)@.take(),
            final(self)@.wf(),
    {
        proof {
            use_type_invariant(&*self);
        }
        let mut q = VecDeque::new();
        std::mem::swap(&mut q, &mut self.q);
        let head = q.pop_front();
        self.q = q;
        match head {
            Some(item) => DequeueStep::Taken { item, notify: Signal::SpaceAvailable },
            None => DequeueStep::Empty { wait_on: Signal::ItemAvailable },
        }
    }
}

} // verus!
