use std::future::{poll_fn, Future};
use std::sync::{Arc, Mutex};
use std::task::Poll;
use std::time::Duration;

use parallel_future::{FutureExt, IntoFutureExt, Mode, ParallelFuture};

/// Drive a pooled-mode handle to completion on the async-std executor.
fn run_pooled<Fut, T>(mut p: ParallelFuture<Fut, T>) -> T
where
    Fut: Future<Output = T> + Send + 'static,
    T: Send + 'static,
{
    async_std::task::block_on(poll_fn(move |cx| {
        if p.is_finished() {
            panic!("the task has already yielded its result");
        }
        match p.drive_pooled(cx) {
            Some(v) => Poll::Ready(v),
            None => Poll::Pending,
        }
    }))
}

/// Drive a same-context handle to completion on the current thread.
fn run_local<Fut, T>(mut p: ParallelFuture<Fut, T>) -> T
where
    Fut: Future<Output = T> + 'static,
    T: 'static,
{
    async_std::task::block_on(poll_fn(move |cx| {
        if p.is_finished() {
            panic!("the task has already yielded its result");
        }
        match p.drive_local(cx) {
            Some(v) => Poll::Ready(v),
            None => Poll::Pending,
        }
    }))
}

#[test]
fn future_spawn() {
    let res = run_pooled(async { "nori is a horse" }.spawn().into_task());
    assert_eq!(res, "nori is a horse");
}

#[test]
fn name() {
    let res = run_pooled(
        async { "nori is a horse" }.spawn().name("meow".into()).into_task(),
    );
    assert_eq!(res, "nori is a horse");
}

#[test]
fn lib_spawn() {
    let res = run_pooled(async { "nori is a horse" }.par());
    assert_eq!(res, "nori is a horse");
}

#[test]
fn is_lazy() {
    async_std::task::block_on(async {
        let polled = Arc::new(Mutex::new(false));
        let polled_2 = polled.clone();
        let _res: ParallelFuture<_, ()> = async move {
            *polled_2.lock().unwrap() = true;
        }
        .par();

        async_std::task::sleep(Duration::from_millis(500)).await;
        assert_eq!(*polled.lock().unwrap(), false);
    })
}

#[test]
fn local_spawn_runs_on_the_same_context() {
    let p = async { 41 + 1 }.spawn_local().into_task();
    assert_eq!(p.mode(), Some(Mode::SameContext));
    assert_eq!(run_local(p), 42);
}

#[test]
fn dropping_a_dispatched_handle_cancels_the_task() {
    async_std::task::block_on(async {
        let flag = Arc::new(Mutex::new(false));
        let flag_2 = flag.clone();
        let mut p: ParallelFuture<_, ()> = async move {
            async_std::task::sleep(Duration::from_millis(300)).await;
            *flag_2.lock().unwrap() = true;
        }
        .par();
        assert_eq!(p.mode(), Some(Mode::Pooled));

        let first = poll_fn(|cx| Poll::Ready(p.drive_pooled(cx))).await;
        assert_eq!(first, None);
        assert!(!p.is_pending());

        drop(p);
        async_std::task::sleep(Duration::from_millis(600)).await;
        assert_eq!(*flag.lock().unwrap(), false);
    })
}
