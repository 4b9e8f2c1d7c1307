use buffers::Acker;
use futures::future;
use futures::task::AtomicWaker;
use std::sync::atomic::{AtomicU64, AtomicUsize, Ordering};
use std::sync::Arc;
use std::task::{Poll, Wake, Waker};
use tokio_test::task::spawn;

/// A wake handle that counts how often it is used.
struct CountingWake(AtomicUsize);

impl Wake for CountingWake {
    fn wake(self: Arc<Self>) {
        self.0.fetch_add(1, Ordering::SeqCst);
    }
}

#[test]
fn ack_with_none() {
    let counter = Arc::new(AtomicU64::new(0));
    let task = Arc::new(AtomicWaker::new());
    let acker = Acker::Disk(counter, Arc::clone(&task));

    let mut mock = spawn(future::poll_fn::<(), _>(|cx| {
        task.register(cx.waker());
        Poll::Pending
    }));
    let _ = mock.poll();

    assert!(!mock.is_woken());
    acker.ack(0);
    assert!(mock.is_woken());
    let _ = mock.poll();
    assert!(!mock.is_woken());
    acker.ack(1);
    assert!(mock.is_woken());
}

#[test]
fn ack_of_nothing_wakes_exactly_once() {
    let counter = Arc::new(AtomicU64::new(5));
    let task = Arc::new(AtomicWaker::new());
    let acker = Acker::Disk(Arc::clone(&counter), Arc::clone(&task));

    let wakes = Arc::new(CountingWake(AtomicUsize::new(0)));
    task.register(&Waker::from(Arc::clone(&wakes)));

    acker.ack(0);
    assert_eq!(wakes.0.load(Ordering::SeqCst), 1);
    assert_eq!(counter.load(Ordering::SeqCst), 5);
}

#[test]
fn ack_advances_the_counter_by_the_count() {
    let counter = Arc::new(AtomicU64::new(0));
    let task = Arc::new(AtomicWaker::new());
    let acker = Acker::Disk(Arc::clone(&counter), task);

    acker.ack(3);
    assert_eq!(counter.load(Ordering::SeqCst), 3);
    acker.ack(0);
    assert_eq!(counter.load(Ordering::SeqCst), 3);
    acker.ack(2);
    assert_eq!(counter.load(Ordering::SeqCst), 5);
}

#[test]
fn ack_wraps_the_counter_around() {
    let counter = Arc::new(AtomicU64::new(u64::MAX));
    let acker = Acker::Disk(Arc::clone(&counter), Arc::new(AtomicWaker::new()));

    acker.ack(2);
    assert_eq!(counter.load(Ordering::SeqCst), 1);
}

#[test]
fn each_ack_wakes_the_task_registered_last() {
    let task = Arc::new(AtomicWaker::new());
    let acker = Acker::Disk(Arc::new(AtomicU64::new(0)), Arc::clone(&task));
    let wakes = Arc::new(CountingWake(AtomicUsize::new(0)));

    for round in 1..=3 {
        task.register(&Waker::from(Arc::clone(&wakes)));
        acker.ack(1);
        assert_eq!(wakes.0.load(Ordering::SeqCst), round);
    }
}

#[test]
fn ack_before_any_task_waits_is_harmless() {
    let counter = Arc::new(AtomicU64::new(0));
    let task = Arc::new(AtomicWaker::new());
    let acker = Acker::Disk(Arc::clone(&counter), Arc::clone(&task));

    acker.ack(4);
    assert_eq!(counter.load(Ordering::SeqCst), 4);

    let wakes = Arc::new(CountingWake(AtomicUsize::new(0)));
    task.register(&Waker::from(Arc::clone(&wakes)));
    assert_eq!(wakes.0.load(Ordering::SeqCst), 0);
}

#[test]
fn clones_of_an_acker_share_counter_and_wake_handle() {
    let counter = Arc::new(AtomicU64::new(0));
    let task = Arc::new(AtomicWaker::new());
    let acker = Acker::Disk(Arc::clone(&counter), Arc::clone(&task));
    let other = acker.clone();
    let wakes = Arc::new(CountingWake(AtomicUsize::new(0)));
    task.register(&Waker::from(Arc::clone(&wakes)));

    acker.ack(1);
    other.ack(2);
    assert_eq!(counter.load(Ordering::SeqCst), 3);
    assert_eq!(wakes.0.load(Ordering::SeqCst), 1);
}

#[test]
fn null_acker_does_nothing() {
    let acker = Acker::Null;
    acker.ack(0);
    acker.ack(7);
    assert!(matches!(acker, Acker::Null));
}
