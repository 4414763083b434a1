//! Laws of whole runs of the queue.
//!
//! Exclusive access puts all the steps that producers and consumers make on
//! one queue into a single order, however many of them run at once. A run is
//! that order; the laws below hold of every run.

use vstd::prelude::*;
use vstd::seq_lib::lemma_multiset_commutative;
use crate::queue::model::{Fill, QueueModel};
use crate::queue::queuing::{dequeue_step, enqueue_step, DequeueStep, EnqueueStep};

verus! {

/// One step that some caller makes on the queue.
pub enum Op<T> {
    /// A producer offers a task.
    Put(T),
    /// A consumer asks for the head.
    Take,
}

/// A queue together with the record of what it has taken in and given out.
#[verifier::ext_equal]
pub struct History<T> {
    /// The queue as it stands.
    pub state: QueueModel<T>,
    /// The tasks that were stored, in the order in which they were stored.
    pub accepted: Seq<T>,
    /// The items that were handed out, in the order in which they left.
    pub delivered: Seq<T>,
}

impl<T> History<T> {
    /// The record of a queue in state `state` on which nothing has run yet.
    pub open spec fn start(state: QueueModel<T>) -> Self {
        History { state, accepted: Seq::empty(), delivered: Seq::empty() }
    }

    /// The record after one more step.
    pub open spec fn step(self, op: Op<T>) -> Self {
        match op {
            Op::Put(task) => History {
                state: self.state.put(task),
                accepted: match enqueue_step(self.state, task) {
                    EnqueueStep::Stored { .. } => self.accepted.push(task),
                    EnqueueStep::Full { .. } => self.accepted,
                },
                delivered: self.delivered,
            },
            Op::Take => History {
                state: self.state.take(),
                accepted: self.accepted,
                delivered: match dequeue_step(self.state) {
                    DequeueStep::Taken { item, .. } => self.delivered.push(item),
                    DequeueStep::Empty { .. } => self.delivered,
                },
            },
        }
    }
}

/// The record after the steps `ops`, made in that order on a queue that was
/// in state `start`.
pub open spec fn run<T>(start: QueueModel<T>, ops: Seq<Op<T>>) -> History<T>
    decreases ops.len(),
{
    if ops.len() == 0 {
        History::start(start)
    } else {
        run(start, ops.drop_last()).step(ops.last())
    }
}

/// A queue never holds more than its capacity: every state that a run
/// reaches from a well-formed queue is well-formed, with the capacity it
/// began with.
pub proof fn law_bound_holds<T>(start: QueueModel<T>, ops: Seq<Op<T>>)
    requires
        start.wf(),
    ensures
        run(start, ops).state.wf(),
        run(start, ops).state.capacity == start.capacity,
        0 <= run(start, ops).state.items.len() <= start.capacity,
    decreases ops.len(),
{
    if ops.len() > 0 {
        law_bound_holds(start, ops.drop_last());
    }
}

/// The moves between the three states: a task is stored in every state but
/// `Full` and leaves the queue `Partial` or `Full`; an item is handed out in
/// every state but `Empty` and leaves the queue `Partial` or `Empty`; a
/// refused step leaves the state as it was. A queue is made `Empty`.
pub proof fn law_fill_moves<T>(before: QueueModel<T>, task: T)
    requires
        before.wf(),
    ensures
        QueueModel::<T>::empty(before.capacity).fill() == Fill::Empty,
        before.fill() == Fill::Full <==> enqueue_step(before, task) is Full,
        before.fill() == Fill::Full ==> before.put(task) == before,
        before.fill() != Fill::Full ==> before.put(task).fill() != Fill::Empty
            && before.put(task).items.len() == before.items.len() + 1,
        before.fill() == Fill::Empty <==> dequeue_step(before) is Empty,
        before.fill() == Fill::Empty ==> before.take() == before,
        before.fill() != Fill::Empty ==> before.take().fill() != Fill::Full
            && before.take().items.len() == before.items.len() - 1,
{
}

/// Nothing is lost, made up or reordered: what was in the queue and what was
/// stored since, in that order, is what was handed out followed by what is
/// still stored.
pub proof fn law_items_conserved<T>(start: QueueModel<T>, ops: Seq<Op<T>>)
    ensures
        start.items + run(start, ops).accepted == run(start, ops).delivered + run(
            start,
            ops,
        ).state.items,
    decreases ops.len(),
{
    let now = run(start, ops);
    if ops.len() == 0 {
        assert(start.items + now.accepted =~= now.delivered + now.state.items);
    } else {
        let before = run(start, ops.drop_last());
        law_items_conserved(start, ops.drop_last());
        assert(start.items + before.accepted == before.delivered + before.state.items);
        match ops.last() {
            Op::Put(task) => {
                if !before.state.is_full() {
                    assert(start.items + before.accepted.push(task) =~= (start.items
                        + before.accepted).push(task));
                    assert(before.delivered + before.state.items.push(task) =~= (before.delivered
                        + before.state.items).push(task));
                }
            },
            Op::Take => {
                if !before.state.is_empty() {
                    assert(before.delivered.push(before.state.items[0])
                        + before.state.items.drop_first() =~= before.delivered
                        + before.state.items);
                }
            },
        }
    }
}

/// First in, first out: the items leave in the order in which they stood in
/// the queue or were stored. What was handed out is the front of that order
/// and what is still stored is the rest of it. On a queue that began empty,
/// the item that leaves in place `k` is the task that was stored in place `k`:
/// of two tasks the one stored earlier leaves earlier, and a task has left
/// only if every task stored before it has.
pub proof fn law_fifo<T>(start: QueueModel<T>, ops: Seq<Op<T>>)
    ensures
        run(start, ops).delivered.len() <= start.items.len() + run(start, ops).accepted.len(),
        run(start, ops).delivered == (start.items + run(start, ops).accepted).take(
            run(start, ops).delivered.len() as int,
        ),
        run(start, ops).state.items == (start.items + run(start, ops).accepted).skip(
            run(start, ops).delivered.len() as int,
        ),
        start.is_empty() ==> forall|k: int|
            0 <= k < run(start, ops).delivered.len() ==> run(start, ops).delivered[k] == run(
                start,
                ops,
            ).accepted[k],
        start.is_empty() ==> forall|earlier: int, later: int|
            #![trigger run(start, ops).accepted[earlier], run(start, ops).delivered[later]]
            0 <= earlier < later < run(start, ops).delivered.len() ==> {
                &&& run(start, ops).delivered[earlier] == run(start, ops).accepted[earlier]
                &&& run(start, ops).delivered[later] == run(start, ops).accepted[later]
            },
{
    let now = run(start, ops);
    law_items_conserved(start, ops);
    let whole = now.delivered + now.state.items;
    assert(whole.take(now.delivered.len() as int) =~= now.delivered);
    assert(whole.skip(now.delivered.len() as int) =~= now.state.items);
    if start.is_empty() {
        assert(start.items + now.accepted =~= now.accepted);
        assert forall|k: int| 0 <= k < now.delivered.len() implies now.delivered[k]
            == now.accepted[k] by {
            assert(whole[k] == now.delivered[k]);
        }
    }
}

/// No loss and no duplication: each task that was stored is either still in
/// the queue or was handed out, as many times as it was stored. Once the
/// queue of a run that began empty is empty again, the items handed out are
/// the tasks stored, each exactly once.
pub proof fn law_no_loss_no_duplication<T>(start: QueueModel<T>, ops: Seq<Op<T>>)
    ensures
        start.items.to_multiset().add(run(start, ops).accepted.to_multiset()) == run(
            start,
            ops,
        ).delivered.to_multiset().add(run(start, ops).state.items.to_multiset()),
        start.is_empty() && run(start, ops).state.is_empty() ==> {
            &&& run(start, ops).delivered == run(start, ops).accepted
            &&& run(start, ops).delivered.to_multiset() == run(start, ops).accepted.to_multiset()
        },
{
    let now = run(start, ops);
    law_items_conserved(start, ops);
    lemma_multiset_commutative(start.items, now.accepted);
    lemma_multiset_commutative(now.delivered, now.state.items);
    if start.is_empty() && now.state.is_empty() {
        assert(start.items + now.accepted =~= now.accepted);
        assert(now.delivered + now.state.items =~= now.delivered);
    }
}

/// A producer waits on a full queue until a consumer has made room: while no
/// step of a run that began on a full queue asks for the head, no task is
/// stored and the queue stays as it was.
pub proof fn law_full_queue_blocks_producers<T>(start: QueueModel<T>, ops: Seq<Op<T>>)
    requires
        start.is_full(),
        forall|k: int| 0 <= k < ops.len() ==> ops[k] is Put,
    ensures
        run(start, ops).state == start,
        run(start, ops).accepted.len() == 0,
        run(start, ops).delivered.len() == 0,
    decreases ops.len(),
{
    if ops.len() > 0 {
        law_full_queue_blocks_producers(start, ops.drop_last());
        assert(ops.last() is Put);
    }
}

/// A consumer waits on an empty queue until a producer has stored a task:
/// while no step of a run that began on an empty queue offers one, no item is
/// handed out and the queue stays as it was.
pub proof fn law_empty_queue_blocks_consumers<T>(start: QueueModel<T>, ops: Seq<Op<T>>)
    requires
        start.is_empty(),
        forall|k: int| 0 <= k < ops.len() ==> ops[k] is Take,
    ensures
        run(start, ops).state == start,
        run(start, ops).accepted.len() == 0,
        run(start, ops).delivered.len() == 0,
    decreases ops.len(),
{
    if ops.len() > 0 {
        law_empty_queue_blocks_consumers(start, ops.drop_last());
        assert(ops.last() is Take);
    }
}

} // verus!
