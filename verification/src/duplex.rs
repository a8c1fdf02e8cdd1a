use vstd::prelude::*;

use crate::bufreader::DEFAULT_BUF_SIZE;
use crate::copy::{CopyReturn, FullDuplexInner};

verus! {

/// One of the two directions of a full-duplex copy: `A` reads from the first stream and
/// writes to the second, `B` the other way round.
#[derive(Clone, Copy, Debug, PartialEq, Eq, Structural)]
pub enum Side {
    A,
    B,
}

/// How a copying pass ended, once its errors have been passed on.
#[derive(Clone, Copy, Debug, PartialEq, Eq, Structural)]
pub enum SidePoll {
    Pending,
    Ready(bool),
}

/// The error with which a copying pass ended.
#[derive(Clone, Copy, Debug, PartialEq, Eq, Structural)]
pub enum CopyFailure {
    /// The error of the outside operation that failed.
    Io,
    /// A write that took no bytes.
    WriteZero,
}

/// What a round of polling both directions decides.
#[derive(Clone, Copy, Debug, PartialEq, Eq, Structural)]
pub enum RoundDecision {
    /// Both directions are finished: the copy is over, with the bytes copied from the
    /// first stream to the second and from the second to the first.
    Finished(u64, u64),
    /// Neither direction can make progress: wait to be woken.
    Pending,
    /// At least one direction made progress: poll both again.
    Continue,
}

impl CopyReturn {
    /// Splits off the errors of a copying pass, to be passed on at once.
    pub fn into_side_poll(self) -> (r: Result<SidePoll, CopyFailure>)
        ensures
            r == match self {
                CopyReturn::Pending => Ok(SidePoll::Pending),
                CopyReturn::Ready(b) => Ok(SidePoll::Ready(b)),
                CopyReturn::Failed => Err(CopyFailure::Io),
                CopyReturn::WriteZero => Err(CopyFailure::WriteZero),
            },
    {
        match self {
            CopyReturn::Pending => Ok(SidePoll::Pending),
            CopyReturn::Ready(b) => Ok(SidePoll::Ready(b)),
            CopyReturn::Failed => Err(CopyFailure::Io),
            CopyReturn::WriteZero => Err(CopyFailure::WriteZero),
        }
    }
}

/// Calls `fastrand::bool`, which draws a bool from the thread-local generator. Nothing is
/// stated of the value drawn.
#[verifier::external_body]
fn coin_flip() -> bool {
    fastrand::bool()
}

/// Which direction a round polls first, for a coin showing `coin`.
pub open spec fn first_of(coin: bool) -> Side {
    if coin {
        Side::A
    } else {
        Side::B
    }
}

/// Which direction a round polls first, for a coin showing `coin`.
pub fn first_side(coin: bool) -> (r: Side)
    ensures
        r == first_of(coin),
{
    if coin {
        Side::A
    } else {
        Side::B
    }
}

/// The other direction.
pub fn other_side(side: Side) -> (r: Side)
    ensures
        r != side,
{
    match side {
        Side::A => Side::B,
        Side::B => Side::A,
    }
}

/// Picks at random which direction a round polls first, so that neither direction is
/// favoured.
pub fn pick_first_side() -> (r: Side)
    ensures
        r == Side::A || r == Side::B,
{
    let coin = coin_flip();
    first_side(coin)
}

/// The results of a round's two passes, put by direction: `(a, b)` from the results of
/// the pass polled first and the one polled second.
pub open spec fn placed(first: Side, first_poll: SidePoll, second_poll: SidePoll) -> (
    SidePoll,
    SidePoll,
) {
    match first {
        Side::A => (first_poll, second_poll),
        Side::B => (second_poll, first_poll),
    }
}

/// Puts the results of a round's two passes by direction.
pub fn place(first: Side, first_poll: SidePoll, second_poll: SidePoll) -> (r: (SidePoll, SidePoll))
    ensures
        r == placed(first, first_poll, second_poll),
{
    match first {
        Side::A => (first_poll, second_poll),
        Side::B => (second_poll, first_poll),
    }
}

/// The coin only orders a round's passes: when each direction's pass ends the same way
/// whichever goes first, the results put by direction, and so the decision of the round,
/// are the same for both faces of the coin.
pub proof fn law_coin_only_orders<A, B>(
    copy: FullDuplexCopy<A, B>,
    a_poll: SidePoll,
    b_poll: SidePoll,
)
    ensures
        forall|coin: bool|
            placed(
                #[trigger] first_of(coin),
                if coin {
                    a_poll
                } else {
                    b_poll
                },
                if coin {
                    b_poll
                } else {
                    a_poll
                },
            ) == (a_poll, b_poll),
        forall|coin: bool|
            {
                let (a, b) = placed(
                    #[trigger] first_of(coin),
                    if coin {
                        a_poll
                    } else {
                        b_poll
                    },
                    if coin {
                        b_poll
                    } else {
                        a_poll
                    },
                );
                copy.round_decision(a, b) == copy.round_decision(a_poll, b_poll)
            },
{
}

/// A copy in both directions between two streams at once.
pub struct FullDuplexCopy<A, B> {
    a: FullDuplexInner<A>,
    b: FullDuplexInner<B>,
}

impl<A, B> FullDuplexCopy<A, B> {
    pub closed spec fn spec_a(self) -> FullDuplexInner<A> {
        self.a
    }

    pub closed spec fn spec_b(self) -> FullDuplexInner<B> {
        self.b
    }

    /// Starts a copy between `a` and `b`, with nothing copied yet.
    pub fn new(a: A, b: B) -> (r: FullDuplexCopy<A, B>)
        ensures
            r.spec_a().spec_reader().spec_inner() == a,
            r.spec_b().spec_reader().spec_inner() == b,
            r.spec_a().spec_reader().contents() == Seq::<u8>::empty(),
            r.spec_b().spec_reader().contents() == Seq::<u8>::empty(),
            !r.spec_a().spec_done(),
            !r.spec_b().spec_done(),
            r.spec_a().spec_bytes_read() == 0,
            r.spec_b().spec_bytes_read() == 0,
            r.spec_a().spec_reader().spec_capacity() == DEFAULT_BUF_SIZE,
            r.spec_b().spec_reader().spec_capacity() == DEFAULT_BUF_SIZE,
            r.spec_a().wf(),
            r.spec_b().wf(),
            r.spec_a().spec_awaiting() is None,
            r.spec_b().spec_awaiting() is None,
            r.spec_a().spec_honest(),
            r.spec_b().spec_honest(),
            r.spec_a().source() == Seq::<u8>::empty(),
            r.spec_b().source() == Seq::<u8>::empty(),
            r.spec_a().written() == Seq::<u8>::empty(),
            r.spec_b().written() == Seq::<u8>::empty(),
    {
        FullDuplexCopy { a: FullDuplexInner::new(a), b: FullDuplexInner::new(b) }
    }

    /// The direction that reads from `a`.
    pub fn side_a(&mut self) -> (r: &mut FullDuplexInner<A>)
        ensures
            *r == old(self).spec_a(),
            final(self).spec_a() == *final(r),
            final(self).spec_b() == old(self).spec_b(),
    {
        &mut self.a
    }

    /// The direction that reads from `b`.
    pub fn side_b(&mut self) -> (r: &mut FullDuplexInner<B>)
        ensures
            *r == old(self).spec_b(),
            final(self).spec_b() == *final(r),
            final(self).spec_a() == old(self).spec_a(),
    {
        &mut self.b
    }

    /// Both directions at once.
    pub fn sides(&mut self) -> (r: (&mut FullDuplexInner<A>, &mut FullDuplexInner<B>))
        ensures
            *r.0 == old(self).spec_a(),
            *r.1 == old(self).spec_b(),
            final(self).spec_a() == *final(r.0),
            final(self).spec_b() == *final(r.1),
    {
        (&mut self.a, &mut self.b)
    }

    /// The decision of a round whose passes ended as `a` and `b`.
    pub open spec fn round_decision(self, a: SidePoll, b: SidePoll) -> RoundDecision {
        match (a, b) {
            (SidePoll::Ready(true), SidePoll::Ready(true)) => RoundDecision::Finished(
                self.spec_a().spec_bytes_read(),
                self.spec_b().spec_bytes_read(),
            ),
            (SidePoll::Pending, SidePoll::Pending) => RoundDecision::Pending,
            _ => RoundDecision::Continue,
        }
    }

    /// Decides a round from how the passes of the two directions ended: the copy is over
    /// once both report their source finished, it waits when neither could go on, and
    /// otherwise it polls again.
    pub fn conclude_round(&self, a: SidePoll, b: SidePoll) -> (r: RoundDecision)
        ensures
            r == self.round_decision(a, b),
            r matches RoundDecision::Finished(x, y) ==> a == SidePoll::Ready(true) && b
                == SidePoll::Ready(true) && x == self.spec_a().spec_bytes_read() && y
                == self.spec_b().spec_bytes_read(),
            a == SidePoll::Ready(true) && b == SidePoll::Ready(true) ==> r
                == RoundDecision::Finished(
                self.spec_a().spec_bytes_read(),
                self.spec_b().spec_bytes_read(),
            ),
            r == RoundDecision::Pending <==> (a == SidePoll::Pending && b == SidePoll::Pending),
            r == RoundDecision::Continue <==> !(a == SidePoll::Pending && b == SidePoll::Pending)
                && !(a == SidePoll::Ready(true) && b == SidePoll::Ready(true)),
    {
        match (a, b) {
            (SidePoll::Ready(true), SidePoll::Ready(true)) => RoundDecision::Finished(
                self.a.bytes_read(),
                self.b.bytes_read(),
            ),
            (SidePoll::Pending, SidePoll::Pending) => RoundDecision::Pending,
            _ => RoundDecision::Continue,
        }
    }
}

/// A copy is over only when both directions report their source ended, target flushed and
/// closed, and then it reports each direction's count; a direction that copied bytes or
/// still waits keeps the copy going.
pub proof fn law_finish_needs_both_done<A, B>(copy: FullDuplexCopy<A, B>, a: SidePoll, b: SidePoll)
    ensures
        (copy.round_decision(a, b) matches RoundDecision::Finished(_, _)) <==> (a
            == SidePoll::Ready(true) && b == SidePoll::Ready(true)),
        copy.round_decision(a, b) matches RoundDecision::Finished(x, y) ==> x
            == copy.spec_a().spec_bytes_read() && y == copy.spec_b().spec_bytes_read(),
        a == SidePoll::Ready(false) || b == SidePoll::Ready(false) ==> copy.round_decision(a, b)
            == RoundDecision::Continue,
{
}

/// A copy waits to be woken only when neither direction could make progress: as soon as one
/// pass ended ready, the round is polled again or the copy is over.
pub proof fn law_wait_only_when_both_pending<A, B>(
    copy: FullDuplexCopy<A, B>,
    a: SidePoll,
    b: SidePoll,
)
    ensures
        copy.round_decision(a, b) == RoundDecision::Pending <==> (a == SidePoll::Pending && b
            == SidePoll::Pending),
        (a matches SidePoll::Ready(_)) || (b matches SidePoll::Ready(_)) ==> copy.round_decision(
            a,
            b,
        ) != RoundDecision::Pending,
{
}

} // verus!
