//! Deferred parallel task handles.
//!
//! A computation is first wrapped in a [`TaskBuilder`], which records how it is
//! to be run (on the shared pool or on the originating context) and an
//! optional diagnostic name.  Consuming the builder yields a handle that
//! stays pending until it is first driven; the first drive submits the
//! computation to the executor exactly once, later drives poll the running
//! worker, and abandoning the handle before completion asks the worker to
//! stop.

mod builder;
mod executor;
mod handle;
mod mode;
mod par;

pub use builder::{BuilderConfig, FutureExt, TaskBuilder};
pub use handle::{HandleState, TaskHandle, WorkerPoll};
pub use handle::{dispatch_step, poll_many, poll_step};
pub use handle::{lemma_dispatch_is_final, lemma_mode_preserved, lemma_name_inert,
    lemma_result_fidelity, lemma_single_dispatch};
pub use mode::Mode;
pub use par::{IntoFutureExt, ParallelFuture};
