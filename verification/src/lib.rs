//! The part of the vector-store proxy that buffers incoming work: a bounded
//! first-in, first-out queue between the producers of messages and the
//! consumer that dispatches them.

pub mod queue;
