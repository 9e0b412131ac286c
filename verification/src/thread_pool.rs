//! What passes between the tracing workers and the side that merges their
//! results, and the rules that a worker follows.

pub mod job;
pub mod trace_result;
pub mod worker;
