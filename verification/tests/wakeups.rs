use futures::task::{waker, ArcWake};
use std::sync::atomic::{AtomicUsize, Ordering};
use std::sync::Arc;
use std::task::Waker;
use vessels_web::operation::Operation;
use vessels_web::task::TaskWaker;
use vessels_web::wakeup::{VesselWaker, Wakeups};

struct Count(AtomicUsize);

impl ArcWake for Count {
    fn wake_by_ref(arc_self: &Arc<Self>) {
        arc_self.0.fetch_add(1, Ordering::SeqCst);
    }
}

fn counting() -> (Arc<Count>, Waker) {
    let count = Arc::new(Count(AtomicUsize::new(0)));
    (count.clone(), waker(count))
}

fn woken(count: &Arc<Count>) -> usize {
    count.0.load(Ordering::SeqCst)
}

fn wake(waker: Option<Waker>) {
    if let Some(waker) = waker {
        waker.wake();
    }
}

#[test]
fn wake_without_a_task_does_nothing() {
    let mut task = TaskWaker::new();
    assert!(task.take().is_none());
    let (count, waker) = counting();
    task.register(&waker);
    assert_eq!(woken(&count), 0);
}

#[test]
fn wake_reaches_the_registered_task() {
    let (count, waker) = counting();
    let mut task = TaskWaker::new();
    task.register(&waker);
    wake(task.take());
    assert_eq!(woken(&count), 1);
}

#[test]
fn one_registration_is_woken_once() {
    let (count, waker) = counting();
    let mut wakeups = Wakeups::new();
    wakeups.register(&waker);
    wake(wakeups.wake());
    assert_eq!(woken(&count), 1);
    let second = wakeups.wake();
    assert!(second.is_none());
    wake(second);
    assert_eq!(woken(&count), 1);
}

#[test]
fn last_registered_task_is_woken() {
    let (first, first_waker) = counting();
    let (second, second_waker) = counting();
    let mut wakeups = Wakeups::new();
    wakeups.register(&first_waker);
    wakeups.register(&second_waker);
    wake(wakeups.wake());
    assert_eq!(woken(&first), 0);
    assert_eq!(woken(&second), 1);
}

#[test]
fn task_can_be_registered_again() {
    let (count, waker) = counting();
    let mut wakeups = Wakeups::new();
    wakeups.register(&waker);
    wakeups.register(&waker);
    wake(wakeups.wake());
    assert_eq!(woken(&count), 1);
    wakeups.register(&waker);
    wake(wakeups.wake());
    assert_eq!(woken(&count), 2);
}

#[test]
fn new_wakeups_have_no_flag_up() {
    let mut wakeups = Wakeups::new();
    assert!(!wakeups.take(Operation::Read));
    assert!(!wakeups.take(Operation::Write));
    assert!(!wakeups.take(Operation::Flush));
    assert!(!wakeups.take(Operation::Close));
    assert_eq!(wakeups.take_next(None), None);
}

#[test]
fn raised_flag_is_taken_once() {
    for operation in [Operation::Read, Operation::Write, Operation::Flush, Operation::Close] {
        let mut wakeups = Wakeups::new();
        assert!(wakeups.raise(operation).is_none());
        assert!(wakeups.take(operation));
        assert!(!wakeups.take(operation));
    }
}

#[test]
fn flag_is_up_when_the_task_is_woken() {
    let (count, waker) = counting();
    let mut wakeups = Wakeups::new();
    wakeups.register(&waker);
    let raised = wakeups.raise(Operation::Read);
    assert_eq!(woken(&count), 0);
    assert!(wakeups.take(Operation::Read));
    wake(raised);
    assert_eq!(woken(&count), 1);
}

#[test]
fn flags_are_served_in_order() {
    let mut wakeups = Wakeups::new();
    wakeups.raise(Operation::Close);
    wakeups.raise(Operation::Read);
    wakeups.raise(Operation::Flush);
    wakeups.raise(Operation::Write);
    assert_eq!(wakeups.take_next(None), Some(Operation::Read));
    assert_eq!(wakeups.take_next(Some(Operation::Read)), Some(Operation::Write));
    assert_eq!(wakeups.take_next(Some(Operation::Write)), Some(Operation::Flush));
    assert_eq!(wakeups.take_next(Some(Operation::Flush)), Some(Operation::Close));
    assert_eq!(wakeups.take_next(Some(Operation::Close)), None);
}

#[test]
fn first_raised_flag_behind_is_next() {
    let mut wakeups = Wakeups::new();
    wakeups.raise(Operation::Close);
    wakeups.raise(Operation::Read);
    assert_eq!(wakeups.take_next(Some(Operation::Read)), Some(Operation::Close));
    assert!(wakeups.take(Operation::Read));
}

#[test]
fn flag_before_the_place_stays_up() {
    let mut wakeups = Wakeups::new();
    wakeups.raise(Operation::Read);
    assert_eq!(wakeups.take_next(Some(Operation::Read)), None);
    assert_eq!(wakeups.take_next(None), Some(Operation::Read));
}

#[test]
fn reader_waker_raises_the_flag_of_reading() {
    let mut wakeups = Wakeups::new();
    assert!(VesselWaker::new(Operation::Read).wake_by_ref(&mut wakeups).is_none());
    assert_eq!(wakeups.take_next(None), Some(Operation::Read));
    assert_eq!(wakeups.take_next(None), None);
}

#[test]
fn writer_wakers_raise_the_flag_of_writing() {
    for operation in [Operation::Write, Operation::Flush, Operation::Close] {
        let (count, waker) = counting();
        let mut wakeups = Wakeups::new();
        wakeups.register(&waker);
        wake(VesselWaker::new(operation).wake_by_ref(&mut wakeups));
        assert_eq!(woken(&count), 1);
        wake(VesselWaker::new(operation).wake_by_ref(&mut wakeups));
        assert_eq!(woken(&count), 1);
        assert_eq!(wakeups.take_next(None), Some(Operation::Write));
        assert_eq!(wakeups.take_next(None), None);
    }
}
