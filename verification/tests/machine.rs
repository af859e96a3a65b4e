use std::cell::Cell;

use parallel_future::{FutureExt, Mode, TaskBuilder, TaskHandle, WorkerPoll};

#[test]
fn handle_starts_pending_and_nothing_is_submitted() {
    let b = 11i32.spawn();
    assert_eq!(b.mode(), Mode::Pooled);
    assert_eq!(b.task_name(), &None);
    let h: TaskHandle<i32, u32> = b.into_handle();
    assert!(h.is_pending());
    assert!(!h.is_finished());
}

#[test]
fn single_dispatch_submits_exactly_once() {
    let submissions = Cell::new(0u32);
    let mut h: TaskHandle<i32, u32> = 5i32.spawn().into_handle();
    for _ in 0..3 {
        if h.is_pending() {
            h.dispatch(|b: TaskBuilder<i32>| {
                submissions.set(submissions.get() + 1);
                assert_eq!(b.mode(), Mode::Pooled);
                7u32
            });
        }
        let r: Option<&str> = h.drive(|w: u32| WorkerPoll::Running(w));
        assert_eq!(r, None);
    }
    assert_eq!(submissions.get(), 1);
    assert!(!h.is_pending());
}

#[test]
fn result_passes_through_unchanged() {
    let mut h: TaskHandle<i32, u32> = 5i32.spawn().into_handle();
    h.dispatch(|_b: TaskBuilder<i32>| 7u32);
    let r: Option<&str> = h.drive(|w: u32| {
        assert_eq!(w, 7u32);
        WorkerPoll::Running(w)
    });
    assert_eq!(r, None);
    let r: Option<&str> = h.drive(|_w: u32| WorkerPoll::Ready("nori is a horse"));
    assert_eq!(r, Some("nori is a horse"));
    assert!(h.is_finished());
}

#[test]
fn close_before_dispatch_hands_back_no_worker() {
    let submissions = Cell::new(0u32);
    let mut h: TaskHandle<i32, u32> = 5i32.spawn().into_handle();
    let w = h.close();
    assert_eq!(w, None);
    assert!(h.is_finished());
    assert_eq!(submissions.get(), 0);
}

#[test]
fn close_after_dispatch_hands_back_the_worker_once() {
    let cancellations = Cell::new(0u32);
    let mut h: TaskHandle<i32, u32> = 5i32.spawn().into_handle();
    h.dispatch(|_b: TaskBuilder<i32>| 7u32);
    if let Some(w) = h.close() {
        assert_eq!(w, 7u32);
        cancellations.set(cancellations.get() + 1);
    }
    assert_eq!(h.close(), None);
    assert_eq!(cancellations.get(), 1);
    assert!(h.is_finished());
}

#[test]
fn same_context_mode_reaches_the_submission_unchanged() {
    let b = 5i32.spawn_local();
    assert_eq!(b.mode(), Mode::SameContext);
    let mut h: TaskHandle<i32, u32> = b.into_handle();
    h.dispatch(|b: TaskBuilder<i32>| {
        assert_eq!(b.mode(), Mode::SameContext);
        7u32
    });
    let r: Option<&str> = h.drive(|w: u32| WorkerPoll::Running(w));
    assert_eq!(r, None);
    assert!(!h.is_finished());
}

#[test]
fn naming_changes_only_the_name() {
    let plain = 5i32.spawn();
    let named = 5i32.spawn().name(String::from("meow"));
    assert_eq!(named.task_name(), &Some(String::from("meow")));
    assert_eq!(plain.task_name(), &None);
    assert_eq!(named.mode(), plain.mode());

    let mut lifecycle = |b: TaskBuilder<i32>| -> Option<&str> {
        let mut h: TaskHandle<i32, u32> = b.into_handle();
        h.dispatch(|_b: TaskBuilder<i32>| 7u32);
        h.drive(|_w: u32| WorkerPoll::Ready("nori is a horse"))
    };
    assert_eq!(lifecycle(plain), Some("nori is a horse"));
    assert_eq!(lifecycle(named), Some("nori is a horse"));
}
