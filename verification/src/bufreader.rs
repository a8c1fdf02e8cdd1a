use vstd::prelude::*;

use crate::copy::IoPoll;
use crate::buffer::{consumed, taken, scatter_chunk, sum_lengths, total_len, ReadBuffer};

verus! {

/// The capacity of a buffered reader made by [`BufReader::new`].
pub const DEFAULT_BUF_SIZE: usize = 8 * 1024;

/// Where a seek goes: from the start, from the end, or from the current position.
#[derive(Clone, Copy, Debug, PartialEq, Eq, Structural)]
pub enum SeekTarget {
    Start(u64),
    End(i64),
    Current(i64),
}

/// The seeks that a buffered reader makes on its underlying reader for one seek request.
#[derive(Clone, Copy, Debug, PartialEq, Eq, Structural)]
pub enum SeekPlan {
    /// One seek to the given target; then the buffer is discarded.
    Direct(SeekTarget),
    /// A seek by the first offset from the current position, which undoes the read-ahead;
    /// then the buffer is discarded, and a seek by the second offset follows, after which
    /// the buffer is discarded again.
    Rewind(i64, i64),
}

/// Where a seek stands while it waits for the underlying reader.
#[derive(Clone, Copy, Debug, PartialEq, Eq, Structural)]
pub enum SeekStage {
    /// Waiting for the last seek of the plan.
    Last,
    /// Waiting for the seek that undoes the read-ahead; a seek by the given offset follows.
    Rewinding(i64),
}

/// What a seek asks for next.
#[derive(Clone, Copy, Debug, PartialEq, Eq, Structural)]
pub enum SeekAction {
    /// Poll the underlying reader to seek to the target, and report the outcome.
    Seek(SeekTarget),
    /// The seek is over, with this result.
    Return(SeekReturn),
}

/// The result of a seek.
#[derive(Clone, Copy, Debug, PartialEq, Eq, Structural)]
pub enum SeekReturn {
    /// The underlying reader's seek is not ready; poll again later.
    Pending,
    /// The underlying reader's seek failed; its error is the result.
    Failed,
    /// The seek succeeded; the new position of the underlying reader.
    Ready(u64),
}

/// How far, in all, the seeks of a plan move the underlying reader from its position,
/// for plans made of relative seeks.
pub open spec fn plan_displacement(plan: SeekPlan) -> int {
    match plan {
        SeekPlan::Direct(SeekTarget::Current(k)) => k as int,
        SeekPlan::Rewind(back, k) => back + k,
        _ => 0,
    }
}

/// The seeks that take the underlying reader to `target` when it is `back` bytes ahead
/// of the reader's logical position. A relative seek is taken from the logical position,
/// so `back` is subtracted; where that leaves the `i64` range, the read-ahead is undone
/// by a seek of its own first.
pub open spec fn planned_seek(back: int, target: SeekTarget) -> SeekPlan {
    match target {
        SeekTarget::Current(n) => if n - back >= i64::MIN {
            SeekPlan::Direct(SeekTarget::Current((n - back) as i64))
        } else {
            SeekPlan::Rewind((-back) as i64, n)
        },
        _ => SeekPlan::Direct(target),
    }
}

/// Adds buffering to a reader: the reader is read in large chunks into a buffer of fixed
/// capacity, from which small reads are served.
pub struct BufReader<R> {
    inner: R,
    buffer: ReadBuffer,
}

impl<R> BufReader<R> {
    /// The underlying reader.
    pub closed spec fn spec_inner(self) -> R {
        self.inner
    }

    /// The buffer, with its read position and fill mark.
    pub closed spec fn spec_buffer(self) -> ReadBuffer {
        self.buffer
    }

    /// The bytes read ahead from the underlying reader and not yet handed out.
    pub open spec fn contents(self) -> Seq<u8> {
        self.spec_buffer().contents()
    }

    /// The size of the buffer.
    pub open spec fn spec_capacity(self) -> int {
        self.spec_buffer().spec_capacity()
    }

    /// Creates a buffered reader with the default capacity, [`DEFAULT_BUF_SIZE`].
    pub fn new(inner: R) -> (r: BufReader<R>)
        ensures
            r.spec_inner() == inner,
            r.spec_buffer().wf(),
            r.spec_capacity() == DEFAULT_BUF_SIZE,
            r.contents() == Seq::<u8>::empty(),
            r.spec_buffer().storage() == Seq::new(DEFAULT_BUF_SIZE as nat, |i: int| 0u8),
            r.spec_buffer().filled() == Seq::<u8>::empty(),
            r.spec_buffer().delivered() == Seq::<u8>::empty(),
    {
        BufReader::with_capacity(DEFAULT_BUF_SIZE, inner)
    }

    /// Creates a buffered reader whose buffer holds `capacity` bytes.
    pub fn with_capacity(capacity: usize, inner: R) -> (r: BufReader<R>)
        requires
            capacity <= isize::MAX,
        ensures
            r.spec_inner() == inner,
            r.spec_buffer().wf(),
            r.spec_capacity() == capacity,
            r.spec_buffer().start() == 0,
            r.spec_buffer().end() == 0,
            r.contents() == Seq::<u8>::empty(),
            r.spec_buffer().storage() == Seq::new(capacity as nat, |i: int| 0u8),
            r.spec_buffer().filled() == Seq::<u8>::empty(),
            r.spec_buffer().delivered() == Seq::<u8>::empty(),
    {
        let buffer = ReadBuffer::zeroed(capacity);
        proof {
            assert(buffer.contents() =~= Seq::<u8>::empty());
        }
        BufReader { inner, buffer }
    }

    /// Shows that the buffer's invariant holds.
    pub(crate) fn check(&self)
        ensures
            self.spec_buffer().wf(),
    {
        self.buffer.check();
    }

    /// Gets a reference to the underlying reader.
    pub fn get_ref(&self) -> (r: &R)
        ensures
            *r == self.spec_inner(),
    {
        &self.inner
    }

    /// Gets a mutable reference to the underlying reader; the buffer is left as it is.
    pub fn get_mut(&mut self) -> (r: &mut R)
        ensures
            *r == old(self).spec_inner(),
            final(self).spec_inner() == *final(r),
            final(self).spec_buffer() == old(self).spec_buffer(),
    {
        &mut self.inner
    }

    /// The bytes read ahead and not yet handed out. Nothing is read to fill the buffer.
    pub fn buffer(&self) -> (r: &[u8])
        ensures
            r@ == self.contents(),
    {
        self.buffer.contents_slice()
    }

    /// Unwraps the buffered reader, returning the underlying reader; the buffered bytes
    /// are lost.
    pub fn into_inner(self) -> (r: R)
        ensures
            r == self.spec_inner(),
    {
        self.inner
    }

    /// The size of the buffer.
    pub fn capacity(&self) -> (r: usize)
        ensures
            r == self.spec_capacity(),
    {
        self.buffer.capacity()
    }

    /// Invalidates all data in the buffer.
    pub fn discard_buffer(&mut self)
        ensures
            final(self).spec_inner() == old(self).spec_inner(),
            final(self).spec_buffer().wf(),
            final(self).spec_buffer().storage() == old(self).spec_buffer().storage(),
            final(self).spec_buffer().start() == 0,
            final(self).spec_buffer().end() == 0,
            final(self).contents() == Seq::<u8>::empty(),
            final(self).spec_buffer().filled() == Seq::<u8>::empty(),
            final(self).spec_buffer().delivered() == Seq::<u8>::empty(),
    {
        self.buffer.discard();
    }

    /// Marks `amt` buffered bytes as handed out; no more than are buffered.
    pub fn consume(&mut self, amt: usize)
        ensures
            final(self).spec_inner() == old(self).spec_inner(),
            final(self).spec_buffer().wf(),
            final(self).spec_buffer().storage() == old(self).spec_buffer().storage(),
            final(self).spec_buffer().end() == old(self).spec_buffer().end(),
            final(self).contents() == consumed(old(self).contents(), amt as int),
            final(self).spec_buffer().filled() == old(self).spec_buffer().filled(),
            final(self).spec_buffer().delivered() == old(self).spec_buffer().delivered()
                + taken(old(self).contents(), amt as int),
    {
        self.buffer.consume(amt);
    }

    /// Whether a fill of the buffer must read from the underlying reader: it does so only
    /// once every buffered byte has been handed out.
    pub fn needs_fill(&self) -> (r: bool)
        ensures
            r == (self.contents().len() == 0),
    {
        self.buffer.is_exhausted()
    }

    /// How many bytes a fill asks the underlying reader for: the whole capacity, and only
    /// once every buffered byte has been handed out.
    pub fn fill_request(&self) -> (r: Option<usize>)
        ensures
            r == if self.contents().len() == 0 {
                Some(self.spec_capacity() as usize)
            } else {
                None::<usize>
            },
    {
        if self.buffer.is_exhausted() {
            Some(self.buffer.capacity())
        } else {
            None
        }
    }

    /// Takes in the bytes that a read of the underlying reader into the buffer produced;
    /// the buffer is refilled only once it has handed out everything it held.
    pub fn fill_from(&mut self, data: &[u8])
        requires
            data@.len() <= old(self).spec_capacity(),
            old(self).contents().len() == 0,
        ensures
            final(self).spec_inner() == old(self).spec_inner(),
            final(self).spec_buffer().wf(),
            final(self).spec_capacity() == old(self).spec_capacity(),
            final(self).spec_buffer().storage() == data@ + old(
                self,
            ).spec_buffer().storage().skip(data@.len() as int),
            final(self).spec_buffer().start() == 0,
            final(self).contents() == data@,
            final(self).spec_buffer().filled() == old(self).spec_buffer().filled() + data@,
            final(self).spec_buffer().delivered() == old(self).spec_buffer().delivered(),
    {
        self.buffer.fill_from(data);
    }

    /// Whether a read of `request_len` bytes goes straight to the underlying reader: when
    /// nothing is buffered and the request is at least as large as the buffer.
    pub fn bypasses_buffer(&self, request_len: usize) -> (r: bool)
        ensures
            r == (self.contents().len() == 0 && request_len >= self.spec_capacity()),
    {
        self.buffer.is_exhausted() && request_len >= self.buffer.capacity()
    }

    /// Whether a read into destinations of lengths `lens` goes straight to the underlying
    /// reader: when nothing is buffered and the destinations together are at least as large
    /// as the buffer.
    pub fn bypasses_buffer_vectored(&self, lens: &[usize]) -> (r: bool)
        requires
            total_len(lens@) <= usize::MAX,
        ensures
            r == (self.contents().len() == 0 && total_len(lens@) >= self.spec_capacity()),
    {
        let total = sum_lengths(lens);
        self.buffer.is_exhausted() && total >= self.buffer.capacity()
    }

    /// Serves a read of at most `max` bytes from the buffer: hands out as many buffered
    /// bytes as fit, from the front, and consumes them.
    pub fn read_buffered(&mut self, max: usize) -> (r: Vec<u8>)
        ensures
            final(self).spec_inner() == old(self).spec_inner(),
            final(self).spec_buffer().wf(),
            final(self).spec_buffer().storage() == old(self).spec_buffer().storage(),
            r@ == taken(old(self).contents(), max as int),
            final(self).contents() == consumed(old(self).contents(), max as int),
            r@ + final(self).contents() == old(self).contents(),
            final(self).spec_buffer().filled() == old(self).spec_buffer().filled(),
            final(self).spec_buffer().delivered() == old(self).spec_buffer().delivered() + r@,
    {
        self.buffer.take(max)
    }

    /// Serves a read into destinations of lengths `lens` from the buffer: the
    /// destinations are filled in order, each as far as buffered bytes remain, and what is
    /// handed out is consumed.
    pub fn read_buffered_vectored(&mut self, lens: &[usize]) -> (r: Vec<Vec<u8>>)
        ensures
            final(self).spec_inner() == old(self).spec_inner(),
            final(self).spec_buffer().wf(),
            final(self).spec_buffer().storage() == old(self).spec_buffer().storage(),
            r@.len() == lens@.len(),
            forall|i: int|
                0 <= i < lens@.len() ==> #[trigger] r@[i]@ == scatter_chunk(
                    old(self).contents(),
                    lens@,
                    i,
                ),
            final(self).contents() == consumed(old(self).contents(), total_len(lens@)),
            final(self).spec_buffer().filled() == old(self).spec_buffer().filled(),
            final(self).spec_buffer().delivered() == old(self).spec_buffer().delivered()
                + taken(old(self).contents(), total_len(lens@)),
    {
        self.buffer.take_scattered(lens)
    }

    /// The seeks on the underlying reader that a seek to `target` takes. A relative seek
    /// is taken from where the underlying reader would be without the read-ahead, so the
    /// buffered bytes are subtracted; where that subtraction leaves the `i64` range, the
    /// read-ahead is undone by a seek of its own first.
    pub fn seek_plan(&self, target: SeekTarget) -> (plan: SeekPlan)
        ensures
            plan == planned_seek(self.contents().len() as int, target),
            target matches SeekTarget::Current(n) ==> plan_displacement(plan) == n
                - self.contents().len(),
            plan matches SeekPlan::Rewind(back, _) ==> back == -self.contents().len(),
            !(target matches SeekTarget::Current(_)) ==> plan == SeekPlan::Direct(target),
            target matches SeekTarget::Current(n) ==> (plan matches SeekPlan::Direct(
                SeekTarget::Current(k),
            ) && k == n - self.contents().len()) || plan == SeekPlan::Rewind(
                (-self.contents().len()) as i64,
                n,
            ),
    {
        match target {
            SeekTarget::Current(n) => {
                self.buffer.check();
                let remainder = self.buffer.available() as i64;
                match n.checked_sub(remainder) {
                    Some(offset) => SeekPlan::Direct(SeekTarget::Current(offset)),
                    None => SeekPlan::Rewind(-remainder, n),
                }
            },
            _ => SeekPlan::Direct(target),
        }
    }

    /// Starts a seek to `target`: asks for the first seek of the planned ones.
    pub fn begin_seek(&self, target: SeekTarget) -> (r: (SeekStage, SeekAction))
        ensures
            r == match planned_seek(self.contents().len() as int, target) {
                SeekPlan::Direct(t) => (SeekStage::Last, SeekAction::Seek(t)),
                SeekPlan::Rewind(back, n) => (
                    SeekStage::Rewinding(n),
                    SeekAction::Seek(SeekTarget::Current(back)),
                ),
            },
            !(target matches SeekTarget::Current(_)) ==> r == (
                SeekStage::Last,
                SeekAction::Seek(target),
            ),
    {
        match self.seek_plan(target) {
            SeekPlan::Direct(t) => (SeekStage::Last, SeekAction::Seek(t)),
            SeekPlan::Rewind(back, n) => (
                SeekStage::Rewinding(n),
                SeekAction::Seek(SeekTarget::Current(back)),
            ),
        }
    }

    /// Advances a seek by the outcome of the seek last asked for. Every seek that succeeds
    /// discards the buffer: after the one that undoes the read-ahead the next seek is asked
    /// for, and after the last one the seek is over with the position reported. A seek
    /// that is pending or fails ends the call with that, and changes nothing more.
    pub fn seek_step(&mut self, stage: &mut SeekStage, event: IoPoll<u64>) -> (r: SeekAction)
        ensures
            final(self).spec_inner() == old(self).spec_inner(),
            final(self).spec_buffer().wf(),
            final(self).spec_buffer().storage() == old(self).spec_buffer().storage(),
            match event {
                IoPoll::Ready(pos) => {
                    &&& final(self).contents() == Seq::<u8>::empty()
                    &&& final(self).spec_buffer().start() == 0
                    &&& final(self).spec_buffer().end() == 0
                    &&& final(self).spec_buffer().filled() == Seq::<u8>::empty()
                    &&& final(self).spec_buffer().delivered() == Seq::<u8>::empty()
                    &&& match *old(stage) {
                        SeekStage::Last => {
                            &&& r == SeekAction::Return(SeekReturn::Ready(pos))
                            &&& *final(stage) == SeekStage::Last
                        },
                        SeekStage::Rewinding(n) => {
                            &&& r == SeekAction::Seek(SeekTarget::Current(n))
                            &&& *final(stage) == SeekStage::Last
                        },
                    }
                },
                IoPoll::Pending => {
                    &&& *final(self) == *old(self)
                    &&& *final(stage) == *old(stage)
                    &&& r == SeekAction::Return(SeekReturn::Pending)
                },
                IoPoll::Failed => {
                    &&& *final(self) == *old(self)
                    &&& *final(stage) == *old(stage)
                    &&& r == SeekAction::Return(SeekReturn::Failed)
                },
            },
            r matches SeekAction::Return(SeekReturn::Ready(_)) ==> final(self).contents()
                == Seq::<u8>::empty(),
    {
        self.buffer.check();
        match event {
            IoPoll::Ready(pos) => {
                self.buffer.discard();
                match *stage {
                    SeekStage::Last => SeekAction::Return(SeekReturn::Ready(pos)),
                    SeekStage::Rewinding(n) => {
                        *stage = SeekStage::Last;
                        SeekAction::Seek(SeekTarget::Current(n))
                    },
                }
            },
            IoPoll::Pending => SeekAction::Return(SeekReturn::Pending),
            IoPoll::Failed => SeekAction::Return(SeekReturn::Failed),
        }
    }
}

/// What the buffer took in since it was created or last discarded reaches the caller
/// whole and in order: the bytes handed out, followed by those still buffered, are
/// exactly the bytes filled in. With refills only of an empty buffer, the caller reads the
/// underlying reader's bytes in order, none lost, repeated or reordered.
pub proof fn law_stream_in_order(b: ReadBuffer)
    requires
        b.wf(),
    ensures
        b.delivered() + b.contents() == b.filled(),
        b.delivered().len() <= b.filled().len(),
        b.delivered() == b.filled().take(b.delivered().len() as int),
{
    assert(b.filled().take(b.delivered().len() as int) =~= b.delivered());
}

/// A read that bypasses the buffer, and the discard that follows it, lose no byte: the
/// buffer bypasses only when it has handed out everything it took in.
pub proof fn law_bypass_loses_nothing(b: ReadBuffer, request_len: int)
    requires
        b.wf(),
        b.contents().len() == 0 && request_len >= b.spec_capacity(),
    ensures
        b.delivered() == b.filled(),
{
    assert(b.delivered() =~= b.filled());
}

/// Counting from where the underlying reader stood when the buffer's history began, and
/// with its reads all gone into the buffer, the underlying reader stands `filled().len()`
/// bytes on. The seeks planned for a relative seek by `n` then take it to
/// `delivered().len() + n`: where a reader without a buffer would land after reading
/// exactly the bytes handed out and seeking by `n`. The first seek of a split plan takes
/// it to `delivered().len()`, the logical position.
pub proof fn law_seek_from_logical_position(b: ReadBuffer, n: i64)
    requires
        b.wf(),
    ensures
        b.filled().len() + plan_displacement(planned_seek(b.contents().len() as int, SeekTarget::Current(n)))
            == b.delivered().len() + n,
        planned_seek(b.contents().len() as int, SeekTarget::Current(n)) matches SeekPlan::Rewind(back, _)
            ==> b.filled().len() + back == b.delivered().len(),
{
    assert((b.delivered() + b.contents()).len() == b.filled().len());
}

/// A seek from the start or the end does not depend on the read-ahead: it is one seek of the
/// underlying reader to exactly that target, whatever the buffer holds.
pub proof fn law_absolute_seek_passes_through(back: int, target: SeekTarget)
    requires
        0 <= back <= isize::MAX,
        !(target matches SeekTarget::Current(_)),
    ensures
        planned_seek(back, target) == SeekPlan::Direct(target),
        forall|other: int|
            0 <= other <= isize::MAX ==> planned_seek(other, target) == planned_seek(back, target),
{
}

/// A relative seek by `n` is corrected for the `back` bytes read ahead: it is one relative
/// seek by `n - back` where that fits an `i64`, and otherwise a seek back by `back` followed
/// by one by `n`; either way it stays relative and moves the underlying reader by
/// `n - back` in all.
pub proof fn law_relative_seek_corrects_read_ahead(back: int, n: i64)
    requires
        0 <= back <= isize::MAX,
    ensures
        planned_seek(back, SeekTarget::Current(n)) == if n - back >= i64::MIN {
            SeekPlan::Direct(SeekTarget::Current((n - back) as i64))
        } else {
            SeekPlan::Rewind((-back) as i64, n)
        },
        plan_displacement(planned_seek(back, SeekTarget::Current(n))) == n - back,
        back == 0 ==> planned_seek(back, SeekTarget::Current(n)) == SeekPlan::Direct(
            SeekTarget::Current(n),
        ),
{
}

} // verus!
