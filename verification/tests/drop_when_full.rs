use buffers::{DropWhenFull, Endpoint, Readiness};
use futures::channel::mpsc;
use futures::executor::block_on;
use futures::{future, Stream};
use std::cell::{Cell, RefCell};
use std::rc::Rc;
use std::task::{Context, Poll};

/// What was done to a `Bounded` endpoint.
#[derive(Default)]
struct Log {
    taken: RefCell<Vec<u32>>,
    probes: Cell<usize>,
    flushes: Cell<usize>,
    closes: Cell<usize>,
}

/// An endpoint with room for a fixed number of records, which writes down
/// what is done to it.
struct Bounded {
    capacity: usize,
    broken: bool,
    log: Rc<Log>,
}

impl Bounded {
    fn new(capacity: usize) -> (Self, Rc<Log>) {
        let log = Rc::new(Log::default());
        (Bounded { capacity, broken: false, log: Rc::clone(&log) }, log)
    }
}

impl Endpoint<u32> for Bounded {
    type Error = &'static str;

    fn poll_ready(&mut self, _cx: &mut Context<'_>) -> Readiness<&'static str> {
        self.log.probes.set(self.log.probes.get() + 1);
        if self.broken {
            Readiness::Failed("broken")
        } else if self.log.taken.borrow().len() < self.capacity {
            Readiness::Ready
        } else {
            Readiness::NotReady
        }
    }

    fn start_send(&mut self, item: u32) -> Result<(), &'static str> {
        if self.broken {
            return Err("broken");
        }
        self.log.taken.borrow_mut().push(item);
        Ok(())
    }

    fn poll_flush(&mut self, _cx: &mut Context<'_>) -> Readiness<&'static str> {
        self.log.flushes.set(self.log.flushes.get() + 1);
        Readiness::Ready
    }

    fn poll_close(&mut self, _cx: &mut Context<'_>) -> Readiness<&'static str> {
        self.log.closes.set(self.log.closes.get() + 1);
        Readiness::NotReady
    }
}

fn with_context<R>(run: impl FnOnce(&mut Context<'_>) -> R) -> R {
    block_on(future::lazy(run))
}

#[test]
fn drop_when_full() {
    block_on(future::lazy(|cx| {
        let (tx, rx) = mpsc::channel(2);

        let mut tx = DropWhenFull::new(tx);

        assert_eq!(tx.poll_ready(cx), Readiness::Ready);
        assert_eq!(tx.start_send(1), Ok(()));
        assert_eq!(tx.poll_ready(cx), Readiness::Ready);
        assert_eq!(tx.start_send(2), Ok(()));
        assert_eq!(tx.poll_ready(cx), Readiness::Ready);
        assert_eq!(tx.start_send(3), Ok(()));
        assert_eq!(tx.poll_ready(cx), Readiness::Ready);
        assert_eq!(tx.start_send(4), Ok(()));

        let mut rx = Box::pin(rx);

        assert_eq!(rx.as_mut().poll_next(cx), Poll::Ready(Some(1)));
        assert_eq!(rx.as_mut().poll_next(cx), Poll::Ready(Some(2)));
        assert_eq!(rx.as_mut().poll_next(cx), Poll::Ready(Some(3)));
        assert_eq!(rx.as_mut().poll_next(cx), Poll::Pending);
    }));
}

#[test]
fn new_decorator_sheds_nothing() {
    let (inner, _log) = Bounded::new(0);
    let decorated = DropWhenFull::new(inner);
    assert!(!decorated.is_shedding());
}

#[test]
fn four_records_into_room_for_two() {
    with_context(|cx| {
        let (inner, log) = Bounded::new(2);
        let mut decorated = DropWhenFull::new(inner);
        for record in [1, 2, 3, 4] {
            assert_eq!(decorated.poll_ready(cx), Readiness::Ready);
            assert_eq!(decorated.start_send(record), Ok(()));
        }
        assert!(decorated.is_shedding());
        assert_eq!(*log.taken.borrow(), vec![1, 2]);
        assert_eq!(log.probes.get(), 4);
    });
}

#[test]
fn submissions_without_a_probe_are_all_shed() {
    with_context(|cx| {
        let (inner, log) = Bounded::new(1);
        let mut decorated = DropWhenFull::new(inner);
        assert_eq!(decorated.poll_ready(cx), Readiness::Ready);
        assert_eq!(decorated.start_send(1), Ok(()));
        assert_eq!(decorated.poll_ready(cx), Readiness::Ready);
        for record in 2..100 {
            assert_eq!(decorated.start_send(record), Ok(()));
            assert!(decorated.is_shedding());
        }
        assert_eq!(*log.taken.borrow(), vec![1]);
        assert_eq!(log.probes.get(), 2);
    });
}

#[test]
fn channel_with_room_for_two_delivers_two() {
    with_context(|cx| {
        // One sending half and a buffer of one: room for two records.
        let (tx, rx) = mpsc::channel(1);
        let mut tx = DropWhenFull::new(tx);
        for record in [1, 2, 3, 4] {
            assert_eq!(tx.poll_ready(cx), Readiness::Ready);
            assert_eq!(tx.start_send(record), Ok(()));
        }
        let mut rx = Box::pin(rx);
        assert_eq!(rx.as_mut().poll_next(cx), Poll::Ready(Some(1)));
        assert_eq!(rx.as_mut().poll_next(cx), Poll::Ready(Some(2)));
        assert_eq!(rx.as_mut().poll_next(cx), Poll::Pending);
    });
}

#[test]
fn shedding_ends_with_the_next_ready_probe() {
    with_context(|cx| {
        let (tx, rx) = mpsc::channel(0);
        let mut tx = DropWhenFull::new(tx);
        let mut rx = Box::pin(rx);

        assert_eq!(tx.poll_ready(cx), Readiness::Ready);
        assert_eq!(tx.start_send(1), Ok(()));
        assert_eq!(tx.poll_ready(cx), Readiness::Ready);
        assert!(tx.is_shedding());
        assert_eq!(tx.start_send(2), Ok(()));
        assert_eq!(tx.start_send(3), Ok(()));

        assert_eq!(rx.as_mut().poll_next(cx), Poll::Ready(Some(1)));
        assert_eq!(rx.as_mut().poll_next(cx), Poll::Pending);

        assert_eq!(tx.poll_ready(cx), Readiness::Ready);
        assert!(!tx.is_shedding());
        assert_eq!(tx.start_send(4), Ok(()));
        assert_eq!(rx.as_mut().poll_next(cx), Poll::Ready(Some(4)));
    });
}

#[test]
fn absorb_follows_the_inner_answer() {
    let mut decorated = DropWhenFull::new(());

    assert_eq!(decorated.absorb(Readiness::<u8>::NotReady), Readiness::Ready);
    assert!(decorated.is_shedding());
    assert_eq!(decorated.absorb(Readiness::Failed(7u8)), Readiness::Failed(7));
    assert!(decorated.is_shedding());
    assert_eq!(decorated.absorb(Readiness::<u8>::Ready), Readiness::Ready);
    assert!(!decorated.is_shedding());
    assert_eq!(decorated.absorb(Readiness::Failed(9u8)), Readiness::Failed(9));
    assert!(!decorated.is_shedding());
}

#[test]
fn failure_of_the_inner_endpoint_is_passed_on() {
    with_context(|cx| {
        let (mut inner, log) = Bounded::new(0);
        inner.broken = true;
        let mut decorated = DropWhenFull::new(inner);
        assert_eq!(decorated.poll_ready(cx), Readiness::Failed("broken"));
        assert!(!decorated.is_shedding());
        assert_eq!(decorated.start_send(1), Err("broken"));
        assert!(log.taken.borrow().is_empty());
    });
}

#[test]
fn failure_of_a_closed_channel_is_passed_on() {
    with_context(|cx| {
        let (tx, rx) = mpsc::channel::<u32>(1);
        let mut tx = DropWhenFull::new(tx);
        drop(rx);
        match tx.poll_ready(cx) {
            Readiness::Failed(error) => assert!(error.is_disconnected()),
            other => panic!("expected a failure, got {:?}", other),
        }
        assert!(!tx.is_shedding());
        assert!(tx.start_send(1).is_err());
    });
}

#[test]
fn flush_and_close_reach_the_inner_endpoint_while_shedding() {
    with_context(|cx| {
        let (inner, log) = Bounded::new(0);
        let mut decorated = DropWhenFull::new(inner);
        assert_eq!(decorated.poll_ready(cx), Readiness::Ready);
        assert!(decorated.is_shedding());
        assert_eq!(decorated.poll_flush(cx), Readiness::Ready);
        assert_eq!(decorated.poll_close(cx), Readiness::NotReady);
        assert!(decorated.is_shedding());
        assert_eq!(log.flushes.get(), 1);
        assert_eq!(log.closes.get(), 1);
    });
}
