use vstd::prelude::*;

use crate::builder::TaskBuilder;
use crate::mode::Mode;

verus! {

/// What one poll of a worker reported: the task is still running (the
/// worker handle comes back for the next poll), or it finished with a value.
pub enum WorkerPoll<W, R> {
    Running(W),
    Ready(R),
}

/// The state of a task handle.
///
/// A handle starts out `Pending`, still holding the builder it was made
/// from: nothing has been submitted to any executor.  The first drive moves
/// it to `Dispatched`, holding the worker handle the executor returned and
/// the mode the task was submitted under.  Once the worker's result has been
/// yielded the handle is `Finished` and is not driven again.
#[derive(Debug)]
pub enum HandleState<C, W> {
    Pending { builder: TaskBuilder<C> },
    Dispatched { worker: W, mode: Mode },
    Finished,
}

/// The dispatch transition: a pending handle becomes dispatched to the
/// worker `w`, carrying the mode its builder was configured with.  A handle
/// that is already dispatched or finished is left unchanged: dispatch
/// happens at most once.
pub open spec fn dispatch_step<C, W>(s: HandleState<C, W>, w: W) -> HandleState<C, W> {
    match s {
        HandleState::Pending { builder } => HandleState::Dispatched { worker: w, mode: builder@.mode },
        _ => s,
    }
}

/// The poll transition: a dispatched handle stays dispatched while the
/// worker reports `Running` (keeping the worker handle the poll returned),
/// and becomes finished the moment the worker reports `Ready`, yielding the
/// worker's value unchanged.  Other states yield nothing and do not move.
pub open spec fn poll_step<C, W, R>(s: HandleState<C, W>, o: WorkerPoll<W, R>) -> (HandleState<C, W>, Option<R>) {
    match s {
        HandleState::Dispatched { worker: _, mode } => match o {
            WorkerPoll::Running(w) => (HandleState::Dispatched { worker: w, mode }, None),
            WorkerPoll::Ready(v) => (HandleState::Finished, Some(v)),
        },
        _ => (s, None),
    }
}

/// The state after a whole sequence of polls, each with the outcome the
/// worker reported for it.
pub open spec fn poll_many<C, W, R>(s: HandleState<C, W>, os: Seq<WorkerPoll<W, R>>) -> HandleState<C, W>
    decreases os.len(),
{
    if os.len() == 0 {
        s
    } else {
        poll_many(poll_step(s, os[0]).0, os.drop_first())
    }
}

/// A handle representing a task.
///
/// It is created pending, is dispatched by the first drive, and yields the
/// worker's result exactly once; see [`HandleState`] for the lifecycle.  The
/// executor is kept abstract here: the first drive hands the builder to a
/// caller-supplied submission function, and later drives hand the worker to
/// a caller-supplied poll function, so the transitions below are what any
/// executor binding gets.
#[derive(Debug)]
#[must_use]
pub struct TaskHandle<C, W> {
    pub(crate) state: HandleState<C, W>,
}

impl<C, W> View for TaskHandle<C, W> {
    type V = HandleState<C, W>;

    closed spec fn view(&self) -> HandleState<C, W> {
        self.state
    }
}

impl<C> TaskBuilder<C> {
    /// Consume the builder, producing a pending handle.  Nothing is
    /// submitted here: dispatch is deferred to the handle's first drive.
    pub fn into_handle<W>(self) -> (h: TaskHandle<C, W>)
        ensures
            h@ == (HandleState::Pending::<C, W> { builder: self }),
    {
        TaskHandle { state: HandleState::Pending { builder: self } }
    }
}

impl<C, W> TaskHandle<C, W> {
    /// Whether the handle has not yet been dispatched.
    pub fn is_pending(&self) -> (r: bool)
        ensures
            r == (self@ is Pending),
    {
        matches!(self.state, HandleState::Pending { .. })
    }

    /// Whether the handle has yielded its result.
    pub fn is_finished(&self) -> (r: bool)
        ensures
            r == (self@ is Finished),
    {
        matches!(self.state, HandleState::Finished)
    }

    /// First drive of a pending handle: the builder is handed to `submit`,
    /// which submits its computation to an executor and returns the worker
    /// handle; the handle becomes dispatched to that worker.  This is the
    /// only operation that submits, and it requires a pending handle, so a
    /// handle's computation is submitted at most once.
    pub fn dispatch<F: FnOnce(TaskBuilder<C>) -> W>(&mut self, submit: F)
        requires
            old(self)@ matches HandleState::Pending { builder } && call_requires(submit, (builder,)),
        ensures
            exists|w: W|
                {
                    &&& call_ensures(submit, (old(self)@->builder,), w)
                    &&& final(self)@ == dispatch_step(old(self)@, w)
                },
    {
        let mut st = HandleState::Finished;
        core::mem::swap(&mut self.state, &mut st);
        match st {
            HandleState::Pending { builder } => {
                let mode = builder.mode();
                let worker = submit(builder);
                let ghost gw = worker;
                self.state = HandleState::Dispatched { worker, mode };
                proof {
                    assert(call_ensures(submit, (old(self)@->builder,), gw));
                    assert(self@ == dispatch_step(old(self)@, gw));
                }
            }
            _ => {
                proof {
                    assert(false);
                }
            }
        }
    }

    /// Later drive of a dispatched handle: the worker is handed to `poll`,
    /// and the handle follows the outcome: it keeps the worker that a
    /// `Running` outcome returned, or finishes and yields the value of a
    /// `Ready` outcome.  The value is passed through unchanged, and the
    /// handle never returns to pending.
    pub fn drive<R, F: FnOnce(W) -> WorkerPoll<W, R>>(&mut self, poll: F) -> (r: Option<R>)
        requires
            old(self)@ matches HandleState::Dispatched { worker, mode } && call_requires(poll, (worker,)),
        ensures
            exists|o: WorkerPoll<W, R>|
                {
                    &&& call_ensures(poll, (old(self)@->worker,), o)
                    &&& (final(self)@, r) == poll_step(old(self)@, o)
                },
    {
        let mut st = HandleState::Finished;
        core::mem::swap(&mut self.state, &mut st);
        match st {
            HandleState::Dispatched { worker, mode } => {
                let o = poll(worker);
                let ghost go = o;
                proof {
                    assert(call_ensures(poll, (old(self)@->worker,), go));
                }
                match o {
                    WorkerPoll::Running(w) => {
                        self.state = HandleState::Dispatched { worker: w, mode };
                        proof {
                            assert((self@, None::<R>) == poll_step(old(self)@, go));
                        }
                        None
                    }
                    WorkerPoll::Ready(v) => {
                        let ghost gv = v;
                        proof {
                            assert((self@, Some(gv)) == poll_step(old(self)@, go));
                        }
                        Some(v)
                    }
                }
            },
            _ => {
                proof {
                    assert(false);
                }
                None
            }
        }
    }

    /// Abandon the handle: it becomes finished, and if a worker was live it
    /// is handed back so the caller can issue a best-effort cancellation.
    /// A pending handle hands back nothing: its computation was never
    /// submitted, so there is nothing to cancel.
    pub fn close(&mut self) -> (r: Option<W>)
        ensures
            final(self)@ is Finished,
            old(self)@ matches HandleState::Dispatched { worker, mode } ==> r == Some(worker),
            !(old(self)@ is Dispatched) ==> r is None,
    {
        let mut st = HandleState::Finished;
        core::mem::swap(&mut self.state, &mut st);
        match st {
            HandleState::Dispatched { worker, mode: _ } => Some(worker),
            _ => None,
        }
    }
}

/// Dispatch happens at most once: polling never brings a handle back to
/// pending, so once a handle has left the pending state no drive can reach
/// the one transition that submits.
pub proof fn lemma_dispatch_is_final<C, W, R>(s: HandleState<C, W>, o: WorkerPoll<W, R>)
    requires
        !(s is Pending),
    ensures
        !(poll_step(s, o).0 is Pending),
{
}

/// Driving any number of times after dispatch never submits again: a whole
/// sequence of polls, whatever each reported, leaves the handle outside the
/// pending state.
pub proof fn lemma_single_dispatch<C, W, R>(s: HandleState<C, W>, os: Seq<WorkerPoll<W, R>>)
    requires
        !(s is Pending),
    ensures
        !(poll_many(s, os) is Pending),
    decreases os.len(),
{
    if os.len() > 0 {
        lemma_dispatch_is_final(s, os[0]);
        lemma_single_dispatch(poll_step(s, os[0]).0, os.drop_first());
    }
}

/// Result fidelity: the moment the worker reports a value, the handle
/// finishes and yields exactly that value.
pub proof fn lemma_result_fidelity<C, W, R>(s: HandleState<C, W>, v: R)
    requires
        s is Dispatched,
    ensures
        poll_step(s, WorkerPoll::Ready(v)) == (HandleState::Finished::<C, W>, Some(v)),
{
}

/// Mode isolation: dispatch records exactly the mode the builder was
/// configured with, and polling never changes it.
pub proof fn lemma_mode_preserved<C, W, R>(b: TaskBuilder<C>, w: W, o: WorkerPoll<W, R>)
    ensures
        dispatch_step(HandleState::Pending { builder: b }, w) == (HandleState::Dispatched::<C, W> {
            worker: w,
            mode: b@.mode,
        }),
        poll_step(HandleState::Dispatched::<C, W> { worker: w, mode: b@.mode }, o).0 is Dispatched
            ==> poll_step(HandleState::Dispatched::<C, W> { worker: w, mode: b@.mode }, o).0->mode
            == b@.mode,
{
}

/// Naming is inert: two builders that agree on their mode dispatch to
/// identical states whatever their names, because the name never enters the
/// dispatched state; it is diagnostic metadata handed to the executor and
/// nothing more.
pub proof fn lemma_name_inert<C, W>(b1: TaskBuilder<C>, b2: TaskBuilder<C>, w: W)
    requires
        b1@.mode == b2@.mode,
    ensures
        dispatch_step(HandleState::Pending { builder: b1 }, w) == dispatch_step(
            HandleState::Pending { builder: b2 },
            w,
        ),
{
}

} // verus!
