use vstd::prelude::*;

use std::future::Future;
use std::task::Context;

use crate::builder::{BuilderConfig, FutureExt, TaskBuilder};
use crate::executor::{builder_local, builder_name, builder_new, builder_spawn, cancel_worker,
    poll_worker};
use crate::handle::{dispatch_step, poll_step, HandleState, WorkerPoll};
use crate::mode::Mode;

verus! {

/// A parallelizable future: a task handle bound to the async-std executor.
///
/// It follows the same lifecycle as [`crate::TaskHandle`]: created pending,
/// dispatched on the first drive, finished once the worker's result has been
/// yielded.  Driving is split by mode — [`Self::drive_pooled`] for handles
/// built with `spawn`, [`Self::drive_local`] for handles built with
/// `spawn_local` — so a handle is only ever offered to the submission path
/// its builder was configured for.  Dropping it early asks the worker to
/// stop, best-effort.
#[derive(Debug)]
#[verifier::reject_recursive_types(T)]
#[must_use]
pub struct ParallelFuture<Fut, T> {
    pub(crate) state: HandleState<Fut, async_std::task::JoinHandle<T>>,
}

impl<Fut, T> View for ParallelFuture<Fut, T> {
    type V = HandleState<Fut, async_std::task::JoinHandle<T>>;

    closed spec fn view(&self) -> Self::V {
        self.state
    }
}

impl<C> TaskBuilder<C> {
    /// Consume the builder into a pollable task bound to async-std.  Nothing
    /// is submitted here: dispatch is deferred to the first drive.
    pub fn into_task<T>(self) -> (p: ParallelFuture<C, T>)
        ensures
            p@ == (HandleState::Pending::<C, async_std::task::JoinHandle<T>> { builder: self }),
    {
        ParallelFuture { state: HandleState::Pending { builder: self } }
    }
}

/// Extension method that turns a computation straight into a
/// [`ParallelFuture`], with pooled execution and no name.
pub trait IntoFutureExt: Sized {
    /// Convert this computation into a parallelizable future.
    fn par<T>(self) -> (p: ParallelFuture<Self, T>)
        ensures
            p@ matches HandleState::Pending { builder } && builder@ == (BuilderConfig {
                computation: self,
                mode: Mode::Pooled,
                name: None::<String>,
            }),
    ;
}

impl<C> IntoFutureExt for C {
    fn par<T>(self) -> (p: ParallelFuture<C, T>) {
        self.spawn().into_task()
    }
}

impl<Fut, T> ParallelFuture<Fut, T> {
    /// Whether the handle has not yet been dispatched.
    pub fn is_pending(&self) -> (r: bool)
        ensures
            r == (self@ is Pending),
    {
        matches!(self.state, HandleState::Pending { .. })
    }

    /// Whether the handle has yielded its result.
    pub fn is_finished(&self) -> (r: bool)
        ensures
            r == (self@ is Finished),
    {
        matches!(self.state, HandleState::Finished)
    }

    /// The execution mode the task was configured with, or nothing once the
    /// handle has finished.
    pub fn mode(&self) -> (m: Option<Mode>)
        ensures
            self@ matches HandleState::Pending { builder } ==> m == Some(builder@.mode),
            self@ matches HandleState::Dispatched { worker, mode } ==> m == Some(mode),
            self@ is Finished ==> m is None,
    {
        match &self.state {
            HandleState::Pending { builder } => Some(builder.mode()),
            HandleState::Dispatched { worker: _, mode } => Some(*mode),
            HandleState::Finished => None,
        }
    }

    /// Drive a pooled-mode handle once: the first call submits the
    /// computation to the shared worker pool, and every call polls the
    /// worker, yielding its value as soon as the worker reports one.  The
    /// handle moves exactly as the abstract transitions say, for the worker
    /// the executor returned and the outcome the worker reported.
    pub fn drive_pooled(&mut self, cx: &mut Context<'_>) -> (r: Option<T>) where
        Fut: Future<Output = T> + Send + 'static,
        T: Send + 'static,

        requires
            !(old(self)@ is Finished),
            old(self)@ matches HandleState::Pending { builder } ==> builder@.mode == Mode::Pooled,
            old(self)@ matches HandleState::Dispatched { worker, mode } ==> mode == Mode::Pooled,
        ensures
            exists|w: async_std::task::JoinHandle<T>, o: WorkerPoll<async_std::task::JoinHandle<T>, T>|
                (final(self)@, r) == poll_step(dispatch_step(old(self)@, w), o),
            !(final(self)@ is Pending),
            r is Some ==> final(self)@ is Finished,
            r is None ==> (final(self)@ matches HandleState::Dispatched { worker, mode } && mode
                == Mode::Pooled),
    {
        let mut st = HandleState::Finished;
        core::mem::swap(&mut self.state, &mut st);
        let (worker, mode) = match st {
            HandleState::Pending { builder } => {
                let m = builder.mode();
                let TaskBuilder { computation, task_name, .. } = builder;
                let mut ab = builder_new();
                match task_name {
                    Some(n) => {
                        ab = builder_name(ab, n);
                    },
                    None => {},
                }
                (builder_spawn(ab, computation), m)
            },
            HandleState::Dispatched { worker, mode } => (worker, mode),
            HandleState::Finished => vstd::pervasive::unreached(),
        };
        let ghost gw = worker;
        proof {
            assert(dispatch_step(old(self)@, gw) == (HandleState::Dispatched::<
                Fut,
                async_std::task::JoinHandle<T>,
            > { worker: gw, mode }));
        }
        let o = poll_worker(worker, cx);
        let ghost go = o;
        match o {
            WorkerPoll::Running(w2) => {
                self.state = HandleState::Dispatched { worker: w2, mode };
                proof {
                    assert((self@, None::<T>) == poll_step(dispatch_step(old(self)@, gw), go));
                }
                None
            },
            WorkerPoll::Ready(v) => {
                let ghost gv = v;
                proof {
                    assert((self@, Some(gv)) == poll_step(dispatch_step(old(self)@, gw), go));
                }
                Some(v)
            },
        }
    }

    /// Drive a same-context handle once: as [`Self::drive_pooled`], but the
    /// first call submits the computation to the executor of the current
    /// context, so neither the computation nor its result needs to be
    /// transferable to another worker.
    pub fn drive_local(&mut self, cx: &mut Context<'_>) -> (r: Option<T>) where
        Fut: Future<Output = T> + 'static,
        T: 'static,

        requires
            !(old(self)@ is Finished),
            old(self)@ matches HandleState::Pending { builder } ==> builder@.mode
                == Mode::SameContext,
            old(self)@ matches HandleState::Dispatched { worker, mode } ==> mode
                == Mode::SameContext,
        ensures
            exists|w: async_std::task::JoinHandle<T>, o: WorkerPoll<async_std::task::JoinHandle<T>, T>|
                (final(self)@, r) == poll_step(dispatch_step(old(self)@, w), o),
            !(final(self)@ is Pending),
            r is Some ==> final(self)@ is Finished,
            r is None ==> (final(self)@ matches HandleState::Dispatched { worker, mode } && mode
                == Mode::SameContext),
    {
        let mut st = HandleState::Finished;
        core::mem::swap(&mut self.state, &mut st);
        let (worker, mode) = match st {
            HandleState::Pending { builder } => {
                let m = builder.mode();
                let TaskBuilder { computation, task_name, .. } = builder;
                let mut ab = builder_new();
                match task_name {
                    Some(n) => {
                        ab = builder_name(ab, n);
                    },
                    None => {},
                }
                (builder_local(ab, computation), m)
            },
            HandleState::Dispatched { worker, mode } => (worker, mode),
            HandleState::Finished => vstd::pervasive::unreached(),
        };
        let ghost gw = worker;
        proof {
            assert(dispatch_step(old(self)@, gw) == (HandleState::Dispatched::<
                Fut,
                async_std::task::JoinHandle<T>,
            > { worker: gw, mode }));
        }
        let o = poll_worker(worker, cx);
        let ghost go = o;
        match o {
            WorkerPoll::Running(w2) => {
                self.state = HandleState::Dispatched { worker: w2, mode };
                proof {
                    assert((self@, None::<T>) == poll_step(dispatch_step(old(self)@, gw), go));
                }
                None
            },
            WorkerPoll::Ready(v) => {
                let ghost gv = v;
                proof {
                    assert((self@, Some(gv)) == poll_step(dispatch_step(old(self)@, gw), go));
                }
                Some(v)
            },
        }
    }
}

/// Cancel the task when the handle is dropped early.  A pending handle was
/// never submitted, so nothing is cancelled and the computation is simply
/// discarded; a dispatched handle's worker receives one best-effort
/// cancellation request through `cancel_worker`; a finished handle has
/// nothing left to release.
///
/// The body is trusted: the verifier used here rejects every function call
/// inside a `Drop` body, so this one step of the lifecycle cannot be
/// verified.  It takes the state out, leaving the handle finished, and
/// hands a live worker to the same cancellation wrapper the rest of the
/// crate relies on.
impl<Fut, T> Drop for ParallelFuture<Fut, T> {
    #[verifier::external_body]
    fn drop(&mut self)
        opens_invariants none
        no_unwind
    {
        let st = core::mem::replace(&mut self.state, HandleState::Finished);
        if let HandleState::Dispatched { worker, .. } = st {
            cancel_worker(worker);
        }
    }
}

} // verus!
