use vstd::prelude::*;

use std::future::Future;
use std::pin::Pin;
use std::task::{Context, Poll, Waker};

use crate::handle::WorkerPoll;

verus! {

#[verifier::external_type_specification]
#[verifier::external_body]
pub struct ExTaskBuilder(async_std::task::Builder);

#[verifier::external_type_specification]
#[verifier::external_body]
#[verifier::reject_recursive_types(T)]
pub struct ExJoinHandle<T>(async_std::task::JoinHandle<T>);

#[verifier::external_type_specification]
#[verifier::external_body]
pub struct ExContext<'a>(Context<'a>);

/// Relies on async_std::task::Builder::new: a fresh task configuration with
/// no name attached.
#[verifier::external_body]
pub(crate) fn builder_new() -> async_std::task::Builder {
    async_std::task::Builder::new()
}

/// Relies on async_std::task::Builder::name: records the given label so the
/// executor attaches it to the task for diagnostics.  Nothing about the
/// task's behaviour is promised of it.
#[verifier::external_body]
pub(crate) fn builder_name(b: async_std::task::Builder, name: String) -> async_std::task::Builder {
    b.name(name)
}

/// Relies on async_std::task::Builder::spawn: submits the future to the
/// shared worker pool and returns the handle of the now-running task.  In
/// the version used here submission itself never fails, and a failure would
/// be fatal by design, so the `io::Result` is unwrapped.
#[verifier::external_body]
pub(crate) fn builder_spawn<F, T>(b: async_std::task::Builder, future: F) -> async_std::task::JoinHandle<
    T,
> where F: Future<Output = T> + Send + 'static, T: Send + 'static {
    b.spawn(future).unwrap()
}

/// Relies on async_std::task::Builder::local: submits the future to the
/// executor of the current context, so neither the future nor its output
/// needs to be transferable to another worker.  As with the pooled path,
/// submission never fails in the version used here.
#[verifier::external_body]
pub(crate) fn builder_local<F, T>(b: async_std::task::Builder, future: F) -> async_std::task::JoinHandle<
    T,
> where F: Future<Output = T> + 'static, T: 'static {
    b.local(future).unwrap()
}

/// Relies on the Future impl of async_std::task::JoinHandle: one poll
/// reports either that the task is still running, handing the worker handle
/// back, or the task's output.  Which of the two comes back depends on the
/// worker's own progress, so nothing more is promised.
#[verifier::external_body]
pub(crate) fn poll_worker<T>(w: async_std::task::JoinHandle<T>, cx: &mut Context<'_>) -> WorkerPoll<
    async_std::task::JoinHandle<T>,
    T,
> {
    let mut w = w;
    match Pin::new(&mut w).poll(cx) {
        Poll::Ready(v) => WorkerPoll::Ready(v),
        Poll::Pending => WorkerPoll::Running(w),
    }
}

/// Relies on async_std::task::JoinHandle::cancel: asks the worker to stop,
/// best-effort and fire-and-forget.  The cancellation future is polled once
/// with a no-op waker, enough to deliver the request, and then discarded
/// rather than awaited: the task may still run to completion, and nothing is
/// promised.
#[verifier::external_body]
pub(crate) fn cancel_worker<T>(w: async_std::task::JoinHandle<T>)
    no_unwind
{
    let mut fut = Box::pin(w.cancel());
    let mut cx = Context::from_waker(Waker::noop());
    let _ = fut.as_mut().poll(&mut cx);
}

} // verus!
