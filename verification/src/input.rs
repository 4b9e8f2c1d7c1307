//! The write side of a buffer: the handle that producers clone, and the
//! endpoint that each of them gets from it.

use crate::channel::{lemma_close_is_done_at_once, lemma_flush_never_fails};
use crate::drop_when_full::DropWhenFull;
use crate::endpoint::{forget_send_error, sent_without_error, Endpoint, Readiness};
use crate::policy::WhenFull;
use futures::channel::mpsc::{SendError, Sender};
use std::task::Context;
use vstd::prelude::*;

verus! {

/// The endpoint of one producer on the backing store itself: a sending half
/// of the channel in memory, or a writer of the queue on disk. It answers as
/// the store does, but tells its producer only that a call failed, not why.
#[verifier::reject_recursive_types(T)]
pub enum StoreEndpoint<T, W> {
    Memory(Sender<T>),
    Disk(W),
}

impl<T, W: Endpoint<T>> StoreEndpoint<T, W> {
    /// Whether the store itself may answer a readiness probe with "not
    /// ready", going from `pre` to `post`.
    pub open spec fn store_not_ready(pre: Self, post: Self) -> bool {
        match pre {
            StoreEndpoint::Memory(before) => post matches StoreEndpoint::Memory(after) && <Sender<
                T,
            > as Endpoint<T>>::ready_step(before, after, Readiness::NotReady),
            StoreEndpoint::Disk(before) => post matches StoreEndpoint::Disk(after)
                && W::ready_step(before, after, Readiness::NotReady),
        }
    }

    /// Whether the store itself may take `item`, going from `pre` to `post`.
    pub open spec fn store_takes(pre: Self, item: T, post: Self) -> bool {
        match pre {
            StoreEndpoint::Memory(before) => post matches StoreEndpoint::Memory(after) && <Sender<
                T,
            > as Endpoint<T>>::send_step(before, item, after, Ok(())),
            StoreEndpoint::Disk(before) => post matches StoreEndpoint::Disk(after) && W::send_step(
                before,
                item,
                after,
                Ok(()),
            ),
        }
    }
}

impl<T, W: Endpoint<T>> Endpoint<T> for StoreEndpoint<T, W> {
    type Error = ();

    open spec fn ready_step(pre: Self, post: Self, answer: Readiness<()>) -> bool {
        match pre {
            StoreEndpoint::Memory(before) => post matches StoreEndpoint::Memory(after)
                && exists|inner: Readiness<SendError>|
                <Sender<T> as Endpoint<T>>::ready_step(before, after, inner)
                    && answer == #[trigger] inner.without_error(),
            StoreEndpoint::Disk(before) => post matches StoreEndpoint::Disk(after)
                && exists|inner: Readiness<W::Error>|
                W::ready_step(before, after, inner)
                    && answer == #[trigger] inner.without_error(),
        }
    }

    open spec fn send_step(pre: Self, item: T, post: Self, answer: Result<(), ()>) -> bool {
        match pre {
            StoreEndpoint::Memory(before) => post matches StoreEndpoint::Memory(after)
                && exists|inner: Result<(), SendError>|
                <Sender<T> as Endpoint<T>>::send_step(before, item, after, inner)
                    && answer == #[trigger] sent_without_error(inner),
            StoreEndpoint::Disk(before) => post matches StoreEndpoint::Disk(after)
                && exists|inner: Result<(), W::Error>|
                W::send_step(before, item, after, inner)
                    && answer == #[trigger] sent_without_error(inner),
        }
    }

    open spec fn flush_step(pre: Self, post: Self, answer: Readiness<()>) -> bool {
        match pre {
            StoreEndpoint::Memory(before) => post matches StoreEndpoint::Memory(after)
                && exists|inner: Readiness<SendError>|
                <Sender<T> as Endpoint<T>>::flush_step(before, after, inner)
                    && answer == #[trigger] inner.without_error(),
            StoreEndpoint::Disk(before) => post matches StoreEndpoint::Disk(after)
                && exists|inner: Readiness<W::Error>|
                W::flush_step(before, after, inner)
                    && answer == #[trigger] inner.without_error(),
        }
    }

    open spec fn close_step(pre: Self, post: Self, answer: Readiness<()>) -> bool {
        match pre {
            StoreEndpoint::Memory(before) => post matches StoreEndpoint::Memory(after)
                && exists|inner: Readiness<SendError>|
                <Sender<T> as Endpoint<T>>::close_step(before, after, inner)
                    && answer == #[trigger] inner.without_error(),
            StoreEndpoint::Disk(before) => post matches StoreEndpoint::Disk(after)
                && exists|inner: Readiness<W::Error>|
                W::close_step(before, after, inner)
                    && answer == #[trigger] inner.without_error(),
        }
    }

    fn poll_ready(&mut self, cx: &mut Context<'_>) -> (answer: Readiness<()>) {
        match self {
            StoreEndpoint::Memory(tx) => Endpoint::poll_ready(tx, cx).forget_error(),
            StoreEndpoint::Disk(writer) => writer.poll_ready(cx).forget_error(),
        }
    }

    fn start_send(&mut self, item: T) -> (answer: Result<(), ()>) {
        match self {
            StoreEndpoint::Memory(tx) => forget_send_error(Endpoint::start_send(tx, item)),
            StoreEndpoint::Disk(writer) => forget_send_error(writer.start_send(item)),
        }
    }

    fn poll_flush(&mut self, cx: &mut Context<'_>) -> (answer: Readiness<()>) {
        match self {
            StoreEndpoint::Memory(tx) => Endpoint::poll_flush(tx, cx).forget_error(),
            StoreEndpoint::Disk(writer) => writer.poll_flush(cx).forget_error(),
        }
    }

    fn poll_close(&mut self, cx: &mut Context<'_>) -> (answer: Readiness<()>) {
        match self {
            StoreEndpoint::Memory(tx) => Endpoint::poll_close(tx, cx).forget_error(),
            StoreEndpoint::Disk(writer) => writer.poll_close(cx).forget_error(),
        }
    }
}

/// The endpoint that a producer writes into: the store's own endpoint where
/// the buffer blocks, the same endpoint behind the shedding decorator where it
/// drops the newest record.
#[verifier::reject_recursive_types(T)]
pub enum BufferInput<T, W> {
    Block(StoreEndpoint<T, W>),
    DropNewest(DropWhenFull<StoreEndpoint<T, W>>),
}

impl<T, W> BufferInput<T, W> {
    /// The overflow policy that the endpoint carries out.
    pub open spec fn policy(self) -> WhenFull {
        match self {
            BufferInput::Block(_) => WhenFull::Block,
            BufferInput::DropNewest(_) => WhenFull::DropNewest,
        }
    }

    /// The store's own endpoint, with or without the decorator around it.
    pub open spec fn store(self) -> StoreEndpoint<T, W> {
        match self {
            BufferInput::Block(store) => store,
            BufferInput::DropNewest(decorated) => decorated.inner(),
        }
    }

    /// Whether the next submission is discarded. An endpoint that blocks
    /// never discards.
    pub open spec fn shedding(self) -> bool {
        match self {
            BufferInput::Block(_) => false,
            BufferInput::DropNewest(decorated) => decorated.shedding(),
        }
    }
}

impl<T, W: Endpoint<T>> Endpoint<T> for BufferInput<T, W> {
    type Error = ();

    open spec fn ready_step(pre: Self, post: Self, answer: Readiness<()>) -> bool {
        match pre {
            BufferInput::Block(before) => post matches BufferInput::Block(after) && StoreEndpoint::<
                T,
                W,
            >::ready_step(before, after, answer),
            BufferInput::DropNewest(before) => post matches BufferInput::DropNewest(after)
                && DropWhenFull::<StoreEndpoint<T, W>>::ready_step(before, after, answer),
        }
    }

    open spec fn send_step(pre: Self, item: T, post: Self, answer: Result<(), ()>) -> bool {
        match pre {
            BufferInput::Block(before) => post matches BufferInput::Block(after) && StoreEndpoint::<
                T,
                W,
            >::send_step(before, item, after, answer),
            BufferInput::DropNewest(before) => post matches BufferInput::DropNewest(after)
                && DropWhenFull::<StoreEndpoint<T, W>>::send_step(before, item, after, answer),
        }
    }

    open spec fn flush_step(pre: Self, post: Self, answer: Readiness<()>) -> bool {
        match pre {
            BufferInput::Block(before) => post matches BufferInput::Block(after) && StoreEndpoint::<
                T,
                W,
            >::flush_step(before, after, answer),
            BufferInput::DropNewest(before) => post matches BufferInput::DropNewest(after)
                && DropWhenFull::<StoreEndpoint<T, W>>::flush_step(before, after, answer),
        }
    }

    open spec fn close_step(pre: Self, post: Self, answer: Readiness<()>) -> bool {
        match pre {
            BufferInput::Block(before) => post matches BufferInput::Block(after) && StoreEndpoint::<
                T,
                W,
            >::close_step(before, after, answer),
            BufferInput::DropNewest(before) => post matches BufferInput::DropNewest(after)
                && DropWhenFull::<StoreEndpoint<T, W>>::close_step(before, after, answer),
        }
    }

    fn poll_ready(&mut self, cx: &mut Context<'_>) -> (answer: Readiness<()>) {
        match self {
            BufferInput::Block(store) => store.poll_ready(cx),
            BufferInput::DropNewest(decorated) => decorated.poll_ready(cx),
        }
    }

    fn start_send(&mut self, item: T) -> (answer: Result<(), ()>) {
        match self {
            BufferInput::Block(store) => store.start_send(item),
            BufferInput::DropNewest(decorated) => decorated.start_send(item),
        }
    }

    fn poll_flush(&mut self, cx: &mut Context<'_>) -> (answer: Readiness<()>) {
        match self {
            BufferInput::Block(store) => store.poll_flush(cx),
            BufferInput::DropNewest(decorated) => decorated.poll_flush(cx),
        }
    }

    fn poll_close(&mut self, cx: &mut Context<'_>) -> (answer: Readiness<()>) {
        match self {
            BufferInput::Block(store) => store.poll_close(cx),
            BufferInput::DropNewest(decorated) => decorated.poll_close(cx),
        }
    }
}

/// The handle on the write side of a buffer. Every producer holds a clone of
/// it and gets its own endpoint from it; all of them write into the one
/// backing store that the handle was made for.
#[verifier::reject_recursive_types(T)]
pub enum BufferInputCloner<T, W> {
    Memory(Sender<T>, WhenFull),
    Disk(W, WhenFull),
}

impl<T, W> BufferInputCloner<T, W> {
    /// The overflow policy that the handle gives to its endpoints.
    pub open spec fn when_full(self) -> WhenFull {
        match self {
            BufferInputCloner::Memory(_, when_full) => when_full,
            BufferInputCloner::Disk(_, when_full) => when_full,
        }
    }
}

impl<T, W: Clone> BufferInputCloner<T, W> {
    /// Whether `store` is an endpoint on this handle's backing store: a clone
    /// of the sending half, or of the writer, that the handle holds.
    pub open spec fn leads_to(self, store: StoreEndpoint<T, W>) -> bool {
        match self {
            BufferInputCloner::Memory(tx, _) => store matches StoreEndpoint::Memory(copy) && cloned(
                tx,
                copy,
            ),
            BufferInputCloner::Disk(writer, _) => store matches StoreEndpoint::Disk(copy) && cloned(
                writer,
                copy,
            ),
        }
    }

    /// Whether `other` is a handle on this handle's backing store with this
    /// handle's policy: it holds a clone of what this one holds.
    pub open spec fn shares_store_with(self, other: Self) -> bool {
        other.when_full() == self.when_full() && match self {
            BufferInputCloner::Memory(tx, _) => other matches BufferInputCloner::Memory(copy, _)
                && cloned(tx, copy),
            BufferInputCloner::Disk(writer, _) => other matches BufferInputCloner::Disk(copy, _)
                && cloned(writer, copy),
        }
    }

    /// A new endpoint on the backing store, for one producer. It carries out
    /// the handle's policy and sheds nothing yet.
    pub fn get(&self) -> (endpoint: BufferInput<T, W>)
        ensures
            endpoint.policy() == self.when_full(),
            self.leads_to(endpoint.store()),
            !endpoint.shedding(),
    {
        match self {
            BufferInputCloner::Memory(tx, when_full) => {
                let inner = StoreEndpoint::Memory(tx.clone());
                if *when_full == WhenFull::DropNewest {
                    BufferInput::DropNewest(DropWhenFull::new(inner))
                } else {
                    BufferInput::Block(inner)
                }
            },
            BufferInputCloner::Disk(writer, when_full) => {
                let inner = StoreEndpoint::Disk(writer.clone());
                if *when_full == WhenFull::DropNewest {
                    BufferInput::DropNewest(DropWhenFull::new(inner))
                } else {
                    BufferInput::Block(inner)
                }
            },
        }
    }
}

/// Cloning a handle makes no second backing store: the endpoints that
/// producers get from a handle and from a clone of it hold clones of what the
/// first handle holds, the second at one remove, and carry out one policy.
pub proof fn lemma_clones_share_the_store<T, W: Clone>(
    handle: BufferInputCloner<T, W>,
    copy: BufferInputCloner<T, W>,
    of_handle: BufferInput<T, W>,
    of_copy: BufferInput<T, W>,
)
    requires
        handle.shares_store_with(copy),
        handle.leads_to(of_handle.store()),
        copy.leads_to(of_copy.store()),
        of_handle.policy() == handle.when_full(),
        of_copy.policy() == copy.when_full(),
    ensures
        of_handle.policy() == of_copy.policy(),
        match handle {
            BufferInputCloner::Memory(tx, _) => of_handle.store() matches StoreEndpoint::Memory(
                first,
            ) && of_copy.store() matches StoreEndpoint::Memory(second) && cloned(tx, first)
                && exists|between: Sender<T>| #[trigger]
                cloned(tx, between) && cloned(between, second),
            BufferInputCloner::Disk(writer, _) => of_handle.store() matches StoreEndpoint::Disk(
                first,
            ) && of_copy.store() matches StoreEndpoint::Disk(second) && cloned(writer, first)
                && exists|between: W| #[trigger]
                cloned(writer, between) && cloned(between, second),
        },
{
}

impl<T, W: Clone> Clone for BufferInputCloner<T, W> {
    /// Another handle on the same backing store, with the same policy.
    fn clone(&self) -> (copy: Self)
        ensures
            self.shares_store_with(copy),
    {
        match self {
            BufferInputCloner::Memory(tx, when_full) => BufferInputCloner::Memory(
                tx.clone(),
                *when_full,
            ),
            BufferInputCloner::Disk(writer, when_full) => BufferInputCloner::Disk(
                writer.clone(),
                *when_full,
            ),
        }
    }
}

/// An endpoint that blocks makes its producer wait and never sheds: a
/// readiness probe answers "not ready" exactly where the store itself does,
/// and a submission is answered as taken exactly where the store itself took
/// the record.
pub proof fn lemma_block_waits_and_never_sheds<T, W: Endpoint<T>>(
    pre: BufferInput<T, W>,
    item: T,
    post: BufferInput<T, W>,
)
    requires
        pre.policy() == WhenFull::Block,
    ensures
        !pre.shedding(),
        BufferInput::<T, W>::ready_step(pre, post, Readiness::NotReady) <==> post.policy()
            == WhenFull::Block && StoreEndpoint::<T, W>::store_not_ready(pre.store(), post.store()),
        BufferInput::<T, W>::send_step(pre, item, post, Ok(())) <==> post.policy()
            == WhenFull::Block && StoreEndpoint::<T, W>::store_takes(
            pre.store(),
            item,
            post.store(),
        ),
{
    // The witnesses: what the store answers where the endpoint answers so.
    assert(Readiness::<SendError>::NotReady.without_error() == Readiness::<()>::NotReady);
    assert(Readiness::<W::Error>::NotReady.without_error() == Readiness::<()>::NotReady);
    assert(sent_without_error(Ok::<(), SendError>(())) == Ok::<(), ()>(()));
    assert(sent_without_error(Ok::<(), W::Error>(())) == Ok::<(), ()>(()));
    if BufferInput::<T, W>::send_step(pre, item, post, Ok(())) {
        match pre.store() {
            StoreEndpoint::Memory(before) => {
                let after = post.store()->Memory_0;
                let inner = choose|inner: Result<(), SendError>|
                    <Sender<T> as Endpoint<T>>::send_step(before, item, after, inner) && Ok::<
                        (),
                        (),
                    >(()) == #[trigger] sent_without_error(inner);
                assert(inner->Ok_0 == ());
            },
            StoreEndpoint::Disk(before) => {
                let after = post.store()->Disk_0;
                let inner = choose|inner: Result<(), W::Error>|
                    W::send_step(before, item, after, inner) && Ok::<(), ()>(())
                        == #[trigger] sent_without_error(inner);
                assert(inner->Ok_0 == ());
            },
        }
    }
}

/// On the channel in memory, whatever the policy, a flush never fails and a
/// close is done at once.
pub proof fn lemma_memory_flushes_and_closes<T, W: Endpoint<T>>(
    pre: BufferInput<T, W>,
    post: BufferInput<T, W>,
    answer: Readiness<()>,
)
    requires
        pre.store() is Memory,
    ensures
        BufferInput::<T, W>::flush_step(pre, post, answer) ==> !(answer is Failed),
        BufferInput::<T, W>::close_step(pre, post, answer) ==> answer is Ready,
{
    let before = pre.store()->Memory_0;
    if BufferInput::<T, W>::flush_step(pre, post, answer) {
        let after = post.store()->Memory_0;
        let inner = choose|inner: Readiness<SendError>|
            <Sender<T> as Endpoint<T>>::flush_step(before, after, inner) && answer
                == #[trigger] inner.without_error();
        lemma_flush_never_fails(before, after, inner);
    }
    if BufferInput::<T, W>::close_step(pre, post, answer) {
        let after = post.store()->Memory_0;
        let inner = choose|inner: Readiness<SendError>|
            <Sender<T> as Endpoint<T>>::close_step(before, after, inner) && answer
                == #[trigger] inner.without_error();
        lemma_close_is_done_at_once(before, after, inner);
    }
}

/// An endpoint that drops the newest record never makes its producer wait:
/// no readiness probe of it answers "not ready".
pub proof fn lemma_drop_newest_never_waits<T, W: Endpoint<T>>(
    pre: BufferInput<T, W>,
    post: BufferInput<T, W>,
    probed: Readiness<()>,
)
    requires
        pre.policy() == WhenFull::DropNewest,
        BufferInput::<T, W>::ready_step(pre, post, probed),
    ensures
        probed != Readiness::<()>::NotReady,
        post.policy() == WhenFull::DropNewest,
{
}

} // verus!
