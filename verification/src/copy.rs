use vstd::prelude::*;

use crate::buffer::{consumed, taken};
use crate::bufreader::BufReader;

verus! {

/// The outcome of one poll of an outside I/O operation: not ready yet, failed (the error
/// stays with whoever made the call), or ready with a value.
#[derive(Clone, Debug, PartialEq, Eq)]
pub enum IoPoll<T> {
    Pending,
    Failed,
    Ready(T),
}

/// What a copying pass learns from outside.
#[derive(Clone, Debug, PartialEq, Eq)]
pub enum CopyEvent {
    /// A new pass of copying starts.
    Begin,
    /// The source was polled to fill the buffer; `Ready` carries the bytes it produced,
    /// no more than the buffer holds, none at its end.
    Filled(IoPoll<Vec<u8>>),
    /// The target was polled to flush.
    Flushed(IoPoll<()>),
    /// The target was polled to close.
    Closed(IoPoll<()>),
    /// The target was polled to write the buffered bytes; `Ready` carries how many it took.
    Written(IoPoll<usize>),
}

/// What a copying pass asks for next.
#[derive(Clone, Copy, Debug, PartialEq, Eq, Structural)]
pub enum CopyAction {
    /// Poll the source to read up to the given number of bytes, the buffer's capacity, and
    /// report `Filled`.
    FillBuffer(usize),
    /// Poll the target to flush, and report `Flushed`.
    FlushTarget,
    /// Poll the target to close, and report `Closed`.
    CloseTarget,
    /// Poll the target to write the buffered bytes, and report `Written`.
    WriteTarget,
    /// The pass is over, with this result.
    Return(CopyReturn),
}

/// The result of a copying pass.
#[derive(Clone, Copy, Debug, PartialEq, Eq, Structural)]
pub enum CopyReturn {
    /// An outside operation is not ready; poll again later.
    Pending,
    /// The outside operation just reported failed; its error is the result.
    Failed,
    /// The target took no bytes of a write: a write-zero error is the result.
    WriteZero,
    /// Success: `true` once the source has ended and the target is flushed and closed,
    /// `false` when some bytes were copied.
    Ready(bool),
}

/// The action a copying pass waits to hear back about: none between passes.
pub open spec fn awaited(action: CopyAction) -> Option<CopyAction> {
    match action {
        CopyAction::Return(_) => None,
        _ => Some(action),
    }
}

/// Whether `event` answers what a pass waits for: `Begin` starts a pass, and each other
/// event reports on the action asked for last.
pub open spec fn answers(awaiting: Option<CopyAction>, event: CopyEvent) -> bool {
    match (awaiting, event) {
        (None, CopyEvent::Begin) => true,
        (Some(CopyAction::FillBuffer(_)), CopyEvent::Filled(_)) => true,
        (Some(CopyAction::FlushTarget), CopyEvent::Flushed(_)) => true,
        (Some(CopyAction::CloseTarget), CopyEvent::Closed(_)) => true,
        (Some(CopyAction::WriteTarget), CopyEvent::Written(_)) => true,
        _ => false,
    }
}

/// One direction of a full-duplex copy: a buffered source, whether its end has been
/// passed on, and how many bytes were written on.
pub struct FullDuplexInner<R> {
    reader: BufReader<R>,
    done: bool,
    bytes_read: u64,
    /// Whether every write took no more bytes than it was offered.
    honest: Ghost<bool>,
    /// The action whose outcome the current pass waits for.
    awaiting: Ghost<Option<CopyAction>>,
}

impl<R> FullDuplexInner<R> {
    pub closed spec fn spec_reader(self) -> BufReader<R> {
        self.reader
    }

    pub closed spec fn spec_done(self) -> bool {
        self.done
    }

    pub closed spec fn spec_bytes_read(self) -> u64 {
        self.bytes_read
    }

    /// Whether every write so far took no more bytes than it was offered.
    pub closed spec fn spec_honest(self) -> bool {
        self.honest@
    }

    /// The action whose outcome the current pass waits for, if a pass is under way.
    pub closed spec fn spec_awaiting(self) -> Option<CopyAction> {
        self.awaiting@
    }

    /// The bytes read from the source, in order.
    pub open spec fn source(self) -> Seq<u8> {
        self.spec_reader().spec_buffer().filled()
    }

    /// The bytes the target took, in order.
    pub open spec fn written(self) -> Seq<u8> {
        self.spec_reader().spec_buffer().delivered()
    }

    /// The state is unchanged but for the action awaited.
    pub open spec fn same_but_phase(self, other: Self) -> bool {
        &&& self.spec_reader() == other.spec_reader()
        &&& self.spec_done() == other.spec_done()
        &&& self.spec_bytes_read() == other.spec_bytes_read()
        &&& self.spec_honest() == other.spec_honest()
    }

    /// The invariant of a direction: the target took a prefix of the source; the count
    /// covers what it took, exactly while every write was honest; the source is read only
    /// when the buffer is empty, and its end is passed on only once all of it was written;
    /// a finished direction has no pass under way.
    pub closed spec fn wf(self) -> bool {
        &&& self.reader.spec_buffer().wf()
        &&& self.written().len() <= self.bytes_read
        &&& self.honest@ ==> self.written().len() == self.bytes_read
        &&& self.done ==> self.awaiting@ is None && self.reader.contents().len() == 0
        &&& match self.awaiting@ {
            None => true,
            Some(CopyAction::FillBuffer(_)) => !self.done && self.reader.contents().len() == 0,
            Some(CopyAction::FlushTarget) => !self.done && self.reader.contents().len() == 0,
            Some(CopyAction::CloseTarget) => !self.done && self.reader.contents().len() == 0,
            Some(CopyAction::WriteTarget) => !self.done && self.reader.contents().len() > 0,
            Some(CopyAction::Return(_)) => false,
        }
    }

    /// Wraps `inner` in a buffered reader of the default capacity, with nothing copied yet.
    pub fn new(inner: R) -> (r: FullDuplexInner<R>)
        ensures
            r.wf(),
            r.spec_reader().spec_inner() == inner,
            r.spec_reader().spec_buffer().wf(),
            r.spec_reader().spec_capacity() == crate::bufreader::DEFAULT_BUF_SIZE,
            r.spec_reader().contents() == Seq::<u8>::empty(),
            r.source() == Seq::<u8>::empty(),
            r.written() == Seq::<u8>::empty(),
            !r.spec_done(),
            r.spec_bytes_read() == 0,
            r.spec_honest(),
            r.spec_awaiting() is None,
    {
        FullDuplexInner {
            reader: BufReader::new(inner),
            done: false,
            bytes_read: 0,
            honest: Ghost(true),
            awaiting: Ghost(None),
        }
    }

    /// Whether the source's end has been passed on to the target.
    pub fn is_done(&self) -> (r: bool)
        ensures
            r == self.spec_done(),
    {
        self.done
    }

    /// How many bytes the target has taken.
    pub fn bytes_read(&self) -> (r: u64)
        ensures
            r == self.spec_bytes_read(),
    {
        self.bytes_read
    }

    /// The buffered source.
    pub fn reader(&self) -> (r: &BufReader<R>)
        ensures
            *r == self.spec_reader(),
    {
        &self.reader
    }

    /// The underlying source stream, for I/O; the buffer and the copy's state stay as
    /// they are.
    pub fn source_mut(&mut self) -> (r: &mut R)
        requires
            old(self).wf(),
        ensures
            *r == old(self).spec_reader().spec_inner(),
            final(self).spec_reader().spec_inner() == *final(r),
            final(self).spec_reader().spec_buffer() == old(self).spec_reader().spec_buffer(),
            final(self).spec_done() == old(self).spec_done(),
            final(self).spec_bytes_read() == old(self).spec_bytes_read(),
            final(self).spec_honest() == old(self).spec_honest(),
            final(self).spec_awaiting() == old(self).spec_awaiting(),
            final(self).wf(),
    {
        self.reader.get_mut()
    }

    /// Advances a copying pass by one event.
    ///
    /// A pass on a finished direction returns `Ready(true)` at once. Otherwise it first
    /// makes sure bytes are buffered, filling the buffer only when it is empty. An empty
    /// fill means the source has ended: the target is flushed, then closed, and the
    /// direction is finished. Buffered bytes are written to the target; what it takes is
    /// consumed and counted, and a write that takes nothing is an error. Whenever an
    /// outside operation is pending or fails, the pass ends with that, and nothing changes.
    pub fn step(&mut self, event: CopyEvent) -> (action: CopyAction)
        requires
            old(self).wf(),
            answers(old(self).spec_awaiting(), event),
            event matches CopyEvent::Filled(IoPoll::Ready(data)) ==> data@.len() <= old(
                self,
            ).spec_reader().spec_capacity(),
            event matches CopyEvent::Written(IoPoll::Ready(n)) ==> old(self).spec_bytes_read()
                + n <= u64::MAX,
        ensures
            final(self).spec_reader().spec_inner() == old(self).spec_reader().spec_inner(),
            final(self).spec_reader().spec_capacity() == old(self).spec_reader().spec_capacity(),
            final(self).wf(),
            final(self).spec_reader().spec_buffer().wf(),
            final(self).spec_awaiting() == awaited(action),
            old(self).spec_done() ==> final(self).spec_done(),
            old(self).spec_done() ==> action == CopyAction::Return(CopyReturn::Ready(true)),
            final(self).spec_bytes_read() >= old(self).spec_bytes_read(),
            action == CopyAction::FlushTarget ==> (event matches CopyEvent::Filled(
                IoPoll::Ready(d),
            ) && d@.len() == 0),
            action == CopyAction::CloseTarget ==> (event matches CopyEvent::Flushed(
                IoPoll::Ready(_),
            )),
            final(self).spec_done() && !old(self).spec_done() ==> (event matches CopyEvent::Closed(
                IoPoll::Ready(_),
            )),
            match event {
                CopyEvent::Begin => {
                    &&& final(self).same_but_phase(*old(self))
                    &&& action == if old(self).spec_done() {
                        CopyAction::Return(CopyReturn::Ready(true))
                    } else if old(self).spec_reader().contents().len() == 0 {
                        CopyAction::FillBuffer(old(self).spec_reader().spec_capacity() as usize)
                    } else {
                        CopyAction::WriteTarget
                    }
                },
                CopyEvent::Filled(IoPoll::Ready(data)) => {
                    &&& final(self).spec_reader().contents() == data@
                    &&& final(self).spec_reader().spec_buffer().start() == 0
                    &&& final(self).spec_reader().spec_buffer().storage() == data@ + old(
                        self,
                    ).spec_reader().spec_buffer().storage().skip(data@.len() as int)
                    &&& final(self).source() == old(self).source() + data@
                    &&& final(self).written() == old(self).written()
                    &&& final(self).spec_done() == old(self).spec_done()
                    &&& final(self).spec_bytes_read() == old(self).spec_bytes_read()
                    &&& final(self).spec_honest() == old(self).spec_honest()
                    &&& action == if data@.len() == 0 {
                        CopyAction::FlushTarget
                    } else {
                        CopyAction::WriteTarget
                    }
                },
                CopyEvent::Flushed(IoPoll::Ready(())) => {
                    &&& final(self).same_but_phase(*old(self))
                    &&& action == CopyAction::CloseTarget
                },
                CopyEvent::Closed(IoPoll::Ready(())) => {
                    &&& final(self).spec_reader() == old(self).spec_reader()
                    &&& final(self).spec_done()
                    &&& final(self).spec_bytes_read() == old(self).spec_bytes_read()
                    &&& final(self).spec_honest() == old(self).spec_honest()
                    &&& action == CopyAction::Return(CopyReturn::Ready(true))
                },
                CopyEvent::Written(IoPoll::Ready(n)) => if n == 0 {
                    &&& final(self).same_but_phase(*old(self))
                    &&& action == CopyAction::Return(CopyReturn::WriteZero)
                } else {
                    &&& final(self).spec_reader().contents() == consumed(
                        old(self).spec_reader().contents(),
                        n as int,
                    )
                    &&& final(self).spec_reader().spec_buffer().storage() == old(
                        self,
                    ).spec_reader().spec_buffer().storage()
                    &&& final(self).spec_reader().spec_buffer().end() == old(
                        self,
                    ).spec_reader().spec_buffer().end()
                    &&& final(self).source() == old(self).source()
                    &&& final(self).written() == old(self).written() + taken(
                        old(self).spec_reader().contents(),
                        n as int,
                    )
                    &&& final(self).spec_honest() == (old(self).spec_honest() && n
                        <= old(self).spec_reader().contents().len())
                    &&& final(self).spec_done() == old(self).spec_done()
                    &&& final(self).spec_bytes_read() == old(self).spec_bytes_read() + n
                    &&& action == CopyAction::Return(CopyReturn::Ready(false))
                },
                CopyEvent::Filled(IoPoll::Pending) | CopyEvent::Flushed(IoPoll::Pending)
                | CopyEvent::Closed(IoPoll::Pending) | CopyEvent::Written(IoPoll::Pending) => {
                    &&& final(self).same_but_phase(*old(self))
                    &&& action == CopyAction::Return(CopyReturn::Pending)
                },
                _ => {
                    &&& final(self).same_but_phase(*old(self))
                    &&& action == CopyAction::Return(CopyReturn::Failed)
                },
            },
    {
        self.reader.check();
        let ghost before = self.reader.contents();
        let action = match event {
            CopyEvent::Begin => {
                if self.done {
                    CopyAction::Return(CopyReturn::Ready(true))
                } else if self.reader.needs_fill() {
                    CopyAction::FillBuffer(self.reader.capacity())
                } else {
                    CopyAction::WriteTarget
                }
            },
            CopyEvent::Filled(IoPoll::Ready(data)) => {
                self.reader.fill_from(data.as_slice());
                if data.len() == 0 {
                    CopyAction::FlushTarget
                } else {
                    CopyAction::WriteTarget
                }
            },
            CopyEvent::Flushed(IoPoll::Ready(())) => CopyAction::CloseTarget,
            CopyEvent::Closed(IoPoll::Ready(())) => {
                self.done = true;
                CopyAction::Return(CopyReturn::Ready(true))
            },
            CopyEvent::Written(IoPoll::Ready(n)) => {
                if n == 0 {
                    CopyAction::Return(CopyReturn::WriteZero)
                } else {
                    self.reader.consume(n);
                    self.bytes_read = self.bytes_read + n as u64;
                    proof {
                        self.honest@ = self.honest@ && n <= before.len();
                    }
                    CopyAction::Return(CopyReturn::Ready(false))
                }
            },
            CopyEvent::Filled(IoPoll::Pending) | CopyEvent::Flushed(IoPoll::Pending)
            | CopyEvent::Closed(IoPoll::Pending) | CopyEvent::Written(IoPoll::Pending) => {
                CopyAction::Return(CopyReturn::Pending)
            },
            _ => CopyAction::Return(CopyReturn::Failed),
        };
        proof {
            self.awaiting@ = awaited(action);
        }
        action
    }
}

/// Over any run of copying passes, the target has taken a prefix of the source: the bytes
/// written, followed by those still buffered, are exactly the bytes read from the source,
/// in order. The count of bytes read covers what was written, and equals it as long as no
/// write claimed more than it was offered.
pub proof fn law_copy_stream<R>(s: FullDuplexInner<R>)
    requires
        s.wf(),
    ensures
        s.written() + s.spec_reader().contents() == s.source(),
        s.written() == s.source().take(s.written().len() as int),
        s.written().len() <= s.spec_bytes_read(),
        s.spec_honest() ==> s.written().len() == s.spec_bytes_read(),
{
    assert(s.source().take(s.written().len() as int) =~= s.written());
}

/// The target is flushed and closed only once the source has ended and all of it was
/// written, and a finished direction has written everything it read.
pub proof fn law_end_after_all_written<R>(s: FullDuplexInner<R>)
    requires
        s.wf(),
        s.spec_done() || s.spec_awaiting() == Some(CopyAction::FlushTarget)
            || s.spec_awaiting() == Some(CopyAction::CloseTarget),
    ensures
        s.spec_reader().contents().len() == 0,
        s.written() == s.source(),
{
    assert(s.written() =~= s.source());
}

/// A finished direction has no pass under way, so the only event it takes is `Begin`, to
/// which it answers `Ready(true)` and changes nothing: nothing is read or written after
/// the target is closed.
pub proof fn law_finished_is_idle<R>(s: FullDuplexInner<R>)
    requires
        s.wf(),
        s.spec_done(),
    ensures
        s.spec_awaiting() is None,
        forall|e: CopyEvent| answers(s.spec_awaiting(), e) ==> e == CopyEvent::Begin,
{
}

} // verus!
