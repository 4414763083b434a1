//! How deep a queue is made when its owner names no capacity, and the errors
//! of a queue's configuration.

use vstd::prelude::*;

verus! {

/// Why a queue could not be configured.
#[derive(Clone, Copy, Debug, PartialEq, Eq)]
pub enum QueueError {
    /// A queue that can hold nothing was asked for.
    ZeroCapacity,
    /// The platform did not say how many workers can run in parallel.
    ParallelismUnknown,
    /// The capacity for that many workers does not fit in a `usize`.
    CapacityOverflow,
}

/// Items of backlog allowed for each worker that can run in parallel.
pub const ITEMS_PER_WORKER: usize = 100;

/// The capacity for a machine that reports `parallelism`, where `None` stands
/// for a platform that could not tell.
pub open spec fn capacity_for(parallelism: Option<usize>) -> Result<usize, QueueError> {
    match parallelism {
        None => Err(QueueError::ParallelismUnknown),
        Some(p) => if p == 0 {
            Err(QueueError::ZeroCapacity)
        } else if p * ITEMS_PER_WORKER > usize::MAX {
            Err(QueueError::CapacityOverflow)
        } else {
            Ok((p * ITEMS_PER_WORKER) as usize)
        },
    }
}

/// Computes the default capacity from the available parallelism that the
/// platform reported: a hundred items for each worker.
pub fn default_capacity(parallelism: Option<usize>) -> (capacity: Result<usize, QueueError>)
    ensures
        capacity == capacity_for(parallelism),
        capacity matches Ok(c) ==> c > 0 && Some(c / ITEMS_PER_WORKER) == parallelism,
{
    match parallelism {
        None => Err(QueueError::ParallelismUnknown),
        Some(0) => Err(QueueError::ZeroCapacity),
        Some(p) => match p.checked_mul(ITEMS_PER_WORKER) {
            Some(c) => Ok(c),
            None => Err(QueueError::CapacityOverflow),
        },
    }
}

} // verus!
