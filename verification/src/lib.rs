//! A bounded worker pool: a fixed set of worker threads pulls tasks from a
//! shared multi-producer, multi-consumer channel and runs each task exactly
//! once, with graceful, blocking teardown.
//!
//! Tasks are modelled as messages: a pool carries values of an arbitrary
//! payload type to its workers, and every worker runs the one handler that the
//! pool was built with. The handler reports success or failure through its
//! return value, so a failing task is confined to its own invocation and never
//! takes a worker down.

use vstd::prelude::*;

mod channel;
pub mod config;
pub mod http;
pub mod pool;
mod worker;

verus! {

/// A pool rejects a requested worker count below this bound: a pool without
/// consumers would accept tasks and starve them silently.
pub const MIN_POOL_SIZE: usize = 1;

} // verus!
