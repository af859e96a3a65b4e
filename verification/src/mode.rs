use vstd::prelude::*;

verus! {

/// How a task's computation is to be executed once it is dispatched.
///
/// `Pooled` submits the computation to the shared worker pool, which may run
/// it in parallel with the context that drives the handle; this requires the
/// computation and its result to be transferable to another worker.
/// `SameContext` keeps the computation on the executor of the context that
/// spawned it, so no transfer requirement applies, but the handle must be
/// driven from that context.
#[derive(Clone, Copy, Debug, PartialEq, Eq, Structural)]
pub enum Mode {
    Pooled,
    SameContext,
}

} // verus!
