//! Submission pipeline of a proof-of-capacity miner: the ranking of candidate
//! deadlines, a single-slot priority queue with fixed-delay retry, and the
//! decisions of the dispatcher that drives submissions to the chain.

pub mod api;
pub mod chain;
pub mod dispatcher;
pub mod prio_retry;
pub mod submission;
