//! The acknowledger: how the consumer tells a durable store what it has
//! processed, and lets waiting producers look for room again.

use futures::task::AtomicWaker;
use std::sync::atomic::{AtomicU64, Ordering};
use std::sync::Arc;
use vstd::prelude::*;

verus! {

/// `futures::task::AtomicWaker`: the slot in which a waiting producer task
/// leaves its wake handle.
#[verifier::external_type_specification]
#[verifier::external_body]
pub struct ExAtomicWaker(AtomicWaker);

/// `AtomicWaker::wake`: wakes the task that registered last, if there is one,
/// and does nothing otherwise. Nothing is claimed of it.
pub assume_specification[ AtomicWaker::wake ](waker: &AtomicWaker)
;

/// The consumer's handle for acknowledging records.
#[derive(Debug, Clone)]
pub enum Acker {
    /// Tied to a durable store: the counter of acknowledged records that the
    /// store reads, and the wake handle of the producer side.
    Disk(Arc<AtomicU64>, Arc<AtomicWaker>),
    /// Tied to nothing: the store needs no acknowledgment.
    Null,
}

impl Acker {
    /// That the shared counter has been advanced by `count`, where there is
    /// one: a call of `AtomicU64::fetch_add` on it with `count` has returned.
    pub open spec fn advanced(self, count: u64) -> bool {
        match self {
            Acker::Disk(counter, _) => exists|previous: u64| #[trigger]
                call_ensures(AtomicU64::fetch_add, (&*counter, count, Ordering::Relaxed), previous),
            Acker::Null => true,
        }
    }

    /// That the wake handle has been signalled, where there is one: a call
    /// of `AtomicWaker::wake` on it has returned.
    pub open spec fn signalled(self) -> bool {
        match self {
            Acker::Disk(_, waker) => call_ensures(AtomicWaker::wake, (&*waker,), ()),
            Acker::Null => true,
        }
    }

    /// Acknowledges `count` more records. With a durable store behind the
    /// acker this advances the shared counter by `count`, which wraps around
    /// at the end of its range, and then signals the wake handle, so that a
    /// producer waiting for room looks again. The signal is given whatever
    /// `count` is: an acknowledgment of nothing still wakes.
    pub fn ack(&self, count: u64)
        ensures
            self.advanced(count),
            self.signalled(),
    {
        match self {
            Acker::Disk(counter, waker) => {
                // Called as values, so that the contract can name the calls.
                let advance = AtomicU64::fetch_add;
                let signal = AtomicWaker::wake;
                advance(counter, count, Ordering::Relaxed);
                signal(waker);
            },
            Acker::Null => {},
        }
    }
}

} // verus!
