//! A runtime-agnostic task execution abstraction.
//!
//! A collection of traits defines a common interface for spawning, blocking
//! on and canceling units of work, independent of which concurrency runtime
//! backs a given executor.  The heart of the crate is the contract itself:
//! the lifecycle every spawned unit goes through, the policy that resolves a
//! cancellation race in favor of an already-produced result, and the
//! capability gap that hands un-spawnable work back to the caller unchanged.
//!
//! The execution context is modeled explicitly by [`runtime::Runtime`]: a
//! table of submitted units together with the log of side effects of the
//! units that have run.  Every executor operation is specified as a
//! transition over that model, and the laws in [`laws`] prove the
//! cross-operation guarantees that every conforming adapter must uphold.

pub mod adapters;
pub mod contract;
pub mod laws;
pub mod model;
pub mod outcome;
pub mod runtime;
pub mod work;

pub use contract::{BlockingExecutor, Executor, FullExecutor, LocalExecutorError, Task};
pub use runtime::{Runtime, TaskHandle};
pub use work::WorkUnit;
