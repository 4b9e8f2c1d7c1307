//! The volatile backing store: a bounded channel of the `futures` crate, and
//! what this crate takes for granted about it.

use crate::endpoint::{Endpoint, Readiness};
use futures::channel::mpsc::{Receiver, SendError, Sender};
use futures::Sink;
use std::pin::Pin;
use std::task::{Context, Poll};
use vstd::prelude::*;

verus! {

/// `futures::channel::mpsc::Sender`: the sending half of a bounded channel.
#[verifier::external_type_specification]
#[verifier::external_body]
#[verifier::reject_recursive_types(T)]
pub struct ExSender<T>(Sender<T>);

/// `futures::channel::mpsc::Receiver`: the receiving half of a bounded
/// channel. Only passed on.
#[verifier::external_type_specification]
#[verifier::external_body]
#[verifier::reject_recursive_types(T)]
pub struct ExReceiver<T>(Receiver<T>);

/// `futures::channel::mpsc::SendError`: why a sending half could not send.
#[verifier::external_type_specification]
#[verifier::external_body]
pub struct ExSendError(SendError);

/// The largest buffer size that a channel can be made with, exclusive.
pub const MAX_CHANNEL_BUFFER: usize = usize::MAX / 4;

/// `futures::channel::mpsc::channel`: makes a bounded channel and hands out
/// its two halves. It panics on a buffer size of `usize::MAX >> 2` or more,
/// which the precondition leaves out. Nothing is claimed of the halves.
pub assume_specification<T>[ futures::channel::mpsc::channel::<T> ](buffer: usize) -> (halves: (
    Sender<T>,
    Receiver<T>,
))
    requires
        buffer < MAX_CHANNEL_BUFFER,
;

/// `Clone::clone` of `Sender`: another sending half of the same channel.
/// Nothing is claimed of the new half but that it is a clone. The call panics
/// only where the channel already has as many sending halves as it can count,
/// more than a process has room for.
pub assume_specification<T>[ <Sender<T> as Clone>::clone ](tx: &Sender<T>) -> (copy: Sender<T>)
;

/// `Sink::poll_ready` of `Sender`. The answer depends on how full the channel
/// is and on whether the receiving half still exists, so nothing is claimed
/// of it.
#[verifier::external_body]
pub(crate) fn sender_poll_ready<T>(tx: &mut Sender<T>, cx: &mut Context<'_>) -> (answer: Readiness<
    SendError,
>) {
    match Sink::<T>::poll_ready(Pin::new(tx), cx) {
        Poll::Ready(Ok(())) => Readiness::Ready,
        Poll::Pending => Readiness::NotReady,
        Poll::Ready(Err(error)) => Readiness::Failed(error),
    }
}

/// `Sink::start_send` of `Sender`. Whether the record is taken depends on the
/// channel, so nothing is claimed of the answer.
#[verifier::external_body]
pub(crate) fn sender_start_send<T>(tx: &mut Sender<T>, item: T) -> (answer: Result<(), SendError>) {
    Sink::<T>::start_send(Pin::new(tx), item)
}

/// `Sink::poll_flush` of `Sender`: a readiness probe in which a channel
/// that no longer takes records counts as flushed. So it never fails; whether
/// it is ready depends on the channel.
#[verifier::external_body]
pub(crate) fn sender_poll_flush<T>(tx: &mut Sender<T>, cx: &mut Context<'_>) -> (answer: Readiness<
    SendError,
>)
    ensures
        !(answer is Failed),
{
    match Sink::<T>::poll_flush(Pin::new(tx), cx) {
        Poll::Ready(Ok(())) => Readiness::Ready,
        Poll::Pending => Readiness::NotReady,
        Poll::Ready(Err(error)) => Readiness::Failed(error),
    }
}

/// `Sink::poll_close` of `Sender`: cuts this half off from the channel, at
/// once and without fail.
#[verifier::external_body]
pub(crate) fn sender_poll_close<T>(tx: &mut Sender<T>, cx: &mut Context<'_>) -> (answer: Readiness<
    SendError,
>)
    ensures
        answer is Ready,
{
    match Sink::<T>::poll_close(Pin::new(tx), cx) {
        Poll::Ready(Ok(())) => Readiness::Ready,
        Poll::Pending => Readiness::NotReady,
        Poll::Ready(Err(error)) => Readiness::Failed(error),
    }
}

/// A sending half is a write endpoint. What it answers is decided by the
/// channel, so each relation says only where the answer comes from: it is
/// one that the channel's own call gives on the sending half as it was, and
/// for a submission, on the record that was handed in. Of the sending half
/// after the call nothing is said. What such an answer can be, as far as
/// this crate knows it, is in the lemmas below.
impl<T> Endpoint<T> for Sender<T> {
    type Error = SendError;

    closed spec fn ready_step(pre: Self, post: Self, answer: Readiness<SendError>) -> bool {
        exists|tx: &mut Sender<T>, cx: &mut Context<'_>|
            *tx == pre && #[trigger] call_ensures(sender_poll_ready::<T>, (tx, cx), answer)
    }

    closed spec fn send_step(
        pre: Self,
        item: T,
        post: Self,
        answer: Result<(), SendError>,
    ) -> bool {
        exists|tx: &mut Sender<T>|
            *tx == pre && #[trigger] call_ensures(sender_start_send::<T>, (tx, item), answer)
    }

    closed spec fn flush_step(pre: Self, post: Self, answer: Readiness<SendError>) -> bool {
        exists|tx: &mut Sender<T>, cx: &mut Context<'_>|
            *tx == pre && #[trigger] call_ensures(sender_poll_flush::<T>, (tx, cx), answer)
    }

    closed spec fn close_step(pre: Self, post: Self, answer: Readiness<SendError>) -> bool {
        exists|tx: &mut Sender<T>, cx: &mut Context<'_>|
            *tx == pre && #[trigger] call_ensures(sender_poll_close::<T>, (tx, cx), answer)
    }

    fn poll_ready(&mut self, cx: &mut Context<'_>) -> (answer: Readiness<SendError>) {
        sender_poll_ready(self, cx)
    }

    fn start_send(&mut self, item: T) -> (answer: Result<(), SendError>) {
        sender_start_send(self, item)
    }

    fn poll_flush(&mut self, cx: &mut Context<'_>) -> (answer: Readiness<SendError>)
        ensures
            !(answer is Failed),
    {
        sender_poll_flush(self, cx)
    }

    fn poll_close(&mut self, cx: &mut Context<'_>) -> (answer: Readiness<SendError>)
        ensures
            answer is Ready,
    {
        sender_poll_close(self, cx)
    }
}

/// A flush of a sending half never fails: a channel that no longer takes
/// records counts as flushed.
pub proof fn lemma_flush_never_fails<T>(
    pre: Sender<T>,
    post: Sender<T>,
    answer: Readiness<SendError>,
)
    requires
        <Sender<T> as Endpoint<T>>::flush_step(pre, post, answer),
    ensures
        !(answer is Failed),
{
}

/// A close of a sending half is done at once and without fail.
pub proof fn lemma_close_is_done_at_once<T>(
    pre: Sender<T>,
    post: Sender<T>,
    answer: Readiness<SendError>,
)
    requires
        <Sender<T> as Endpoint<T>>::close_step(pre, post, answer),
    ensures
        answer is Ready,
{
}

} // verus!
