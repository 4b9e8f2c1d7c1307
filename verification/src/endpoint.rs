//! The write endpoint: what a producer may do with the place it writes into.

use std::task::Context;
use vstd::prelude::*;

verus! {

/// `std::task::Context`: the task context that a probe registers its
/// interest with. Only passed on.
#[verifier::external_type_specification]
#[verifier::external_body]
pub struct ExContext<'a>(Context<'a>);

/// What an endpoint answers when it is asked whether it can make progress.
#[derive(Debug, PartialEq, Eq, Copy, Clone)]
pub enum Readiness<E> {
    /// It can: the caller may go on.
    Ready,
    /// It cannot yet: the caller would have to wait and ask again.
    NotReady,
    /// It has failed.
    Failed(E),
}

impl<E> Readiness<E> {
    /// The answer with the reason of a failure left out.
    pub open spec fn without_error(self) -> Readiness<()> {
        match self {
            Readiness::Ready => Readiness::Ready,
            Readiness::NotReady => Readiness::NotReady,
            Readiness::Failed(_) => Readiness::Failed(()),
        }
    }

    /// Leaves the reason of a failure out of the answer.
    pub fn forget_error(self) -> (plain: Readiness<()>)
        ensures
            plain == self.without_error(),
    {
        match self {
            Readiness::Ready => Readiness::Ready,
            Readiness::NotReady => Readiness::NotReady,
            Readiness::Failed(_) => Readiness::Failed(()),
        }
    }
}

/// The answer to a submission with the reason of a failure left out.
pub open spec fn sent_without_error<E>(answer: Result<(), E>) -> Result<(), ()> {
    match answer {
        Ok(_) => Ok(()),
        Err(_) => Err(()),
    }
}

/// Leaves the reason of a failure out of the answer to a submission.
pub fn forget_send_error<E>(answer: Result<(), E>) -> (plain: Result<(), ()>)
    ensures
        plain == sent_without_error(answer),
{
    match answer {
        Ok(_) => Ok(()),
        Err(_) => Err(()),
    }
}

/// The capability set of a write endpoint: ask for readiness, submit a
/// record, flush, close.
///
/// Each method comes with a relation that says which outcomes one call may
/// have: the state before, the state after and what was answered. Left as it
/// is, a relation admits every outcome, that is, it promises nothing: so it
/// stands for an endpoint whose answers are decided outside this crate. A
/// decorator states its own relation in terms of the relation of what it
/// wraps.
pub trait Endpoint<T>: Sized {
    type Error;

    /// The outcomes that one readiness probe may have.
    open spec fn ready_step(pre: Self, post: Self, answer: Readiness<Self::Error>) -> bool {
        true
    }

    /// The outcomes that the submission of `item` may have.
    open spec fn send_step(
        pre: Self,
        item: T,
        post: Self,
        answer: Result<(), Self::Error>,
    ) -> bool {
        true
    }

    /// The outcomes that one flush probe may have.
    open spec fn flush_step(pre: Self, post: Self, answer: Readiness<Self::Error>) -> bool {
        true
    }

    /// The outcomes that one close probe may have.
    open spec fn close_step(pre: Self, post: Self, answer: Readiness<Self::Error>) -> bool {
        true
    }

    /// Asks whether a record can be submitted now.
    fn poll_ready(&mut self, cx: &mut Context<'_>) -> (answer: Readiness<Self::Error>)
        ensures
            Self::ready_step(*old(self), *final(self), answer),
    ;

    /// Submits one record.
    fn start_send(&mut self, item: T) -> (answer: Result<(), Self::Error>)
        ensures
            Self::send_step(*old(self), item, *final(self), answer),
    ;

    /// Drives out what was submitted before.
    fn poll_flush(&mut self, cx: &mut Context<'_>) -> (answer: Readiness<Self::Error>)
        ensures
            Self::flush_step(*old(self), *final(self), answer),
    ;

    /// Flushes and closes the endpoint.
    fn poll_close(&mut self, cx: &mut Context<'_>) -> (answer: Readiness<Self::Error>)
        ensures
            Self::close_step(*old(self), *final(self), answer),
    ;
}

} // verus!
