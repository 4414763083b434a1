//! A bounded queue for many producers and consumers.
//!
//! This module holds the part of the queue that decides: what is stored, in
//! which order it leaves, when a caller has to wait and which signal wakes
//! it. Locking, suspending and waking are left to the caller, which makes one
//! step at a time under exclusive access and then does what the step's result
//! names.

pub mod dispatch;
pub mod history;
pub mod model;
pub mod queuing;
pub mod sizing;
