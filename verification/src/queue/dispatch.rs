//! The hand-over of a dequeued message to the routine that processes it.
//!
//! The queue never runs that routine. It makes up the order for one run of
//! it: the message, and a handle of its own to each of the two stores that
//! the routine works on. The caller starts the run on an execution context
//! of its own and does not wait for it, so that a slow run holds up neither
//! the consumer nor anyone who is waiting for the queue.

use std::sync::Arc;
use vstd::prelude::*;
use crate::queue::queuing::MyQueue;

verus! {

/// Everything that one run of the processing routine is given.
///
/// `A` and `B` are the two stores as their owners share them, each behind
/// whatever lock its owner chose. The queue looks into neither.
pub struct Dispatch<A, B> {
    /// A handle to the vector store, owned by this order.
    pub vector_store: Arc<A>,
    /// A handle to the document store, owned by this order.
    pub document_store: Arc<B>,
    /// The message as the payload to embed.
    pub payload: String,
    /// The message as it was received.
    pub raw_message: String,
}

/// `Arc::clone` of std: another handle to the same shared value. The contract
/// claims that the new handle stands for the value that `handle` stands for,
/// which is what sharing one allocation means; nothing is copied.
#[verifier::external_body]
fn share<H>(handle: &Arc<H>) -> (twin: Arc<H>)
    ensures
        twin == *handle,
{
    Arc::clone(handle)
}

impl<T> MyQueue<T> {
    /// Makes up the order for processing `message`, which a consumer has
    /// dequeued.
    ///
    /// The order shares both stores with the caller, whose own handles stay
    /// with it, and carries the message twice, as payload and as received.
    /// No queue is touched: the call needs no access to one.
    pub fn embed_message<A, B>(
        qdrant_conn: &Arc<A>,
        mongo_conn: &Arc<B>,
        message: String,
    ) -> (order: Dispatch<A, B>)
        ensures
            order.vector_store == *qdrant_conn,
            order.document_store == *mongo_conn,
            order.payload@ == message@,
            order.raw_message@ == message@,
    {
        let data = message.clone();
        Dispatch {
            vector_store: share(qdrant_conn),
            document_store: share(mongo_conn),
            payload: data,
            raw_message: message,
        }
    }
}

} // verus!
