//! The shedding decorator: a write endpoint that never makes its producer
//! wait, and discards what the endpoint it wraps had no room for.

use crate::endpoint::{Endpoint, Readiness};
use std::task::Context;
use vstd::prelude::*;

verus! {

/// Wraps a write endpoint and turns its "not ready" into loss.
///
/// A probe that finds the wrapped endpoint not ready is answered with
/// "ready", and the decorator remembers to shed: until the next probe, what
/// is submitted is discarded without touching the wrapped endpoint.
pub struct DropWhenFull<S> {
    inner: S,
    drop: bool,
}

/// The flag after a probe during which the wrapped endpoint gave `inner_answer`.
pub open spec fn shed_after<E>(shedding: bool, inner_answer: Readiness<E>) -> bool {
    match inner_answer {
        Readiness::Ready => false,
        Readiness::NotReady => true,
        Readiness::Failed(_) => shedding,
    }
}

/// The decorator's answer to a probe during which the wrapped endpoint gave
/// `inner_answer`: a failure is passed on as it is, everything else is "ready".
pub open spec fn answer_after<E>(inner_answer: Readiness<E>) -> Readiness<E> {
    match inner_answer {
        Readiness::Ready => Readiness::Ready,
        Readiness::NotReady => Readiness::Ready,
        Readiness::Failed(error) => Readiness::Failed(error),
    }
}

impl<S> DropWhenFull<S> {
    /// The endpoint that is wrapped.
    pub closed spec fn inner(self) -> S {
        self.inner
    }

    /// Whether the next submission is discarded.
    pub closed spec fn shedding(self) -> bool {
        self.drop
    }

    /// Wraps `inner`. Nothing is shed before the first probe.
    pub fn new(inner: S) -> (this: Self)
        ensures
            this.inner() == inner,
            !this.shedding(),
    {
        Self { inner, drop: false }
    }

    /// Whether the next submission is discarded.
    pub fn is_shedding(&self) -> (shedding: bool)
        ensures
            shedding == self.shedding(),
    {
        self.drop
    }

    /// Takes the wrapped endpoint's answer to a readiness probe, sets the
    /// flag by it and gives the decorator's own answer.
    pub fn absorb<E>(&mut self, inner_answer: Readiness<E>) -> (answer: Readiness<E>)
        ensures
            final(self).inner() == old(self).inner(),
            final(self).shedding() == shed_after(old(self).shedding(), inner_answer),
            answer == answer_after(inner_answer),
    {
        match inner_answer {
            Readiness::Ready => {
                self.drop = false;
                Readiness::Ready
            },
            Readiness::NotReady => {
                self.drop = true;
                Readiness::Ready
            },
            Readiness::Failed(error) => Readiness::Failed(error),
        }
    }
}

impl<T, S: Endpoint<T>> Endpoint<T> for DropWhenFull<S> {
    type Error = S::Error;

    /// A probe never answers "not ready". It answers "ready" with the flag
    /// cleared where the wrapped endpoint was ready and with the flag set
    /// where it was not; a failure is passed on and leaves the flag alone.
    open spec fn ready_step(pre: Self, post: Self, answer: Readiness<S::Error>) -> bool {
        match answer {
            Readiness::Ready => S::ready_step(
                pre.inner(),
                post.inner(),
                if post.shedding() {
                    Readiness::NotReady
                } else {
                    Readiness::Ready
                },
            ),
            Readiness::NotReady => false,
            Readiness::Failed(error) => post.shedding() == pre.shedding() && S::ready_step(
                pre.inner(),
                post.inner(),
                Readiness::Failed(error),
            ),
        }
    }

    /// While the decorator sheds, a submission succeeds and changes nothing;
    /// otherwise it is the wrapped endpoint's submission.
    open spec fn send_step(pre: Self, item: T, post: Self, answer: Result<(), S::Error>) -> bool {
        post.shedding() == pre.shedding() && if pre.shedding() {
            post.inner() == pre.inner() && answer is Ok
        } else {
            S::send_step(pre.inner(), item, post.inner(), answer)
        }
    }

    /// A flush is the wrapped endpoint's flush.
    open spec fn flush_step(pre: Self, post: Self, answer: Readiness<S::Error>) -> bool {
        post.shedding() == pre.shedding() && S::flush_step(pre.inner(), post.inner(), answer)
    }

    /// A close is the wrapped endpoint's close.
    open spec fn close_step(pre: Self, post: Self, answer: Readiness<S::Error>) -> bool {
        post.shedding() == pre.shedding() && S::close_step(pre.inner(), post.inner(), answer)
    }

    fn poll_ready(&mut self, cx: &mut Context<'_>) -> (answer: Readiness<S::Error>) {
        let inner_answer = self.inner.poll_ready(cx);
        self.absorb(inner_answer)
    }

    fn start_send(&mut self, item: T) -> (answer: Result<(), S::Error>) {
        if self.drop {
            Ok(())
        } else {
            self.inner.start_send(item)
        }
    }

    fn poll_flush(&mut self, cx: &mut Context<'_>) -> (answer: Readiness<S::Error>) {
        self.inner.poll_flush(cx)
    }

    fn poll_close(&mut self, cx: &mut Context<'_>) -> (answer: Readiness<S::Error>) {
        self.inner.poll_close(cx)
    }
}

/// A probe of the decorator is a probe of the wrapped endpoint followed by
/// the decision that `absorb` takes on its answer.
pub proof fn lemma_probe_absorbs_inner_answer<T, S: Endpoint<T>>(
    pre: DropWhenFull<S>,
    post: DropWhenFull<S>,
    answer: Readiness<S::Error>,
)
    ensures
        DropWhenFull::<S>::ready_step(pre, post, answer) <==> exists|
            inner_answer: Readiness<S::Error>,
        |
            #[trigger] S::ready_step(pre.inner(), post.inner(), inner_answer) && post.shedding()
                == shed_after(pre.shedding(), inner_answer) && answer == answer_after(
                inner_answer,
            ),
{
    if DropWhenFull::<S>::ready_step(pre, post, answer) {
        let inner_answer = match answer {
            Readiness::Ready => if post.shedding() {
                Readiness::NotReady
            } else {
                Readiness::Ready
            },
            _ => answer,
        };
        assert(S::ready_step(pre.inner(), post.inner(), inner_answer));
    }
}

/// Whether, in a run of submissions with no probe in between, the one at
/// `index` leads from its state to the next.
pub open spec fn sent_at<T, S: Endpoint<T>>(
    states: Seq<DropWhenFull<S>>,
    items: Seq<T>,
    answers: Seq<Result<(), S::Error>>,
    index: int,
) -> bool {
    DropWhenFull::<S>::send_step(states[index], items[index], states[index + 1], answers[index])
}

/// A run of submissions with no probe in between: `items` one after the
/// other, from `states[0]` on, each with its answer.
pub open spec fn sent_in_a_row<T, S: Endpoint<T>>(
    states: Seq<DropWhenFull<S>>,
    items: Seq<T>,
    answers: Seq<Result<(), S::Error>>,
) -> bool {
    &&& states.len() == items.len() + 1
    &&& answers.len() == items.len()
    &&& forall|index: int|
        0 <= index < items.len() ==> #[trigger] sent_at(states, items, answers, index)
}

/// Once a probe has found the wrapped endpoint not ready, every submission
/// before the next probe is discarded: however many there are, each succeeds,
/// and the wrapped endpoint stays as the probe left it. Here `probed` is the
/// decorator before that probe and `states[0]` the decorator after it.
pub proof fn lemma_sheds_until_next_probe<T, S: Endpoint<T>>(
    probed: DropWhenFull<S>,
    inner_answer: Readiness<S::Error>,
    states: Seq<DropWhenFull<S>>,
    items: Seq<T>,
    answers: Seq<Result<(), S::Error>>,
)
    requires
        inner_answer is NotReady,
        states[0].shedding() == shed_after(probed.shedding(), inner_answer),
        sent_in_a_row(states, items, answers),
    ensures
        forall|index: int| 0 <= index < items.len() ==> (#[trigger] answers[index]) is Ok,
        forall|index: int|
            0 <= index <= items.len() ==> (#[trigger] states[index]).shedding()
                && states[index].inner() == states[0].inner(),
{
    assert forall|index: int| 0 <= index <= items.len() implies (#[trigger] states[index])
        .shedding() && states[index].inner() == states[0].inner() by {
        lemma_shedding_lasts(states, items, answers, index);
    }
    assert forall|index: int| 0 <= index < items.len() implies (#[trigger] answers[index])
        is Ok by {
        lemma_shedding_lasts(states, items, answers, index);
        assert(sent_at(states, items, answers, index));
    }
}

/// A decorator that sheds at the start of a run of submissions still sheds
/// after any number of them, with its wrapped endpoint untouched.
proof fn lemma_shedding_lasts<T, S: Endpoint<T>>(
    states: Seq<DropWhenFull<S>>,
    items: Seq<T>,
    answers: Seq<Result<(), S::Error>>,
    upto: int,
)
    requires
        sent_in_a_row(states, items, answers),
        states[0].shedding(),
        0 <= upto <= items.len(),
    ensures
        states[upto].shedding(),
        states[upto].inner() == states[0].inner(),
    decreases upto,
{
    if upto > 0 {
        lemma_shedding_lasts(states, items, answers, upto - 1);
        assert(sent_at(states, items, answers, upto - 1));
    }
}

} // verus!
