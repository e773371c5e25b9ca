//! The decision core of a fixed-size worker-thread pool, and the request
//! routing of the small web server that drives it.
//!
//! The pool is modelled as a state machine: jobs wait in one FIFO queue,
//! each worker is waiting, running a job, or terminated, and closing the
//! submission side is the only shutdown signal. The threads, locks and
//! closures that run it live in the application around this library.
use vstd::prelude::*;

pub mod http;
pub mod pool;

pub use http::{route, same_text};
pub use pool::{Action, PoolError, ThreadPool, WorkerState};
