//! The cooperative task-scheduling core of a small single-core kernel.
//!
//! Many independent computations share one execution context. Each is
//! advanced until it suspends; a computation that waits for keyboard input
//! leaves its resumption handle with the event bridge, and the interrupt
//! handler that delivers the next scancode puts the computation back on the
//! ready queue. When nothing is ready the scheduler decides whether the
//! processor may halt.
//!
//! The model is one of interleaving, not of parallelism: every operation of
//! this crate is one atomic step on state that its caller holds exclusively,
//! and an interrupt is a call made between two such steps.

pub mod composer;
pub mod conf;
pub mod task;
