//! A write-once handoff cell: one producer publishes a value, any number of
//! observers poll for it or block until it is there.

pub mod slot;
pub mod laws;
pub mod signal;
pub mod thread_result;

pub use thread_result::ThreadResult;
