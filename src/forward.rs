//! Forwarding one byte stream into another: a state machine that says what
//! to do next (read a chunk, write part of it, flush, stop) from what the
//! last operation gave. The caller owns the streams and the chunk buffer.

use vstd::prelude::*;

verus! {

/// Size of the buffer one read fills.
pub const FORWARD_CHUNK: usize = 1024;

/// Why forwarding stopped.
#[derive(Clone, Copy, Debug, PartialEq, Eq, Structural)]
pub enum PipeEnd {
    /// The source reported end of stream.
    EndOfStream,
    /// Reading from the source failed.
    ReadFailed,
    /// Writing to or flushing the sink failed, or it took no bytes.
    WriteFailed,
    /// An event came that does not answer the last action.
    Protocol,
}

/// What the last operation on the streams gave.
#[derive(Clone, Copy, Debug, PartialEq, Eq, Structural)]
pub enum PipeEvent {
    /// A read put this many bytes at the start of the buffer.
    Read(usize),
    /// A write took this many bytes.
    Wrote(usize),
    /// A flush succeeded.
    Flushed,
    /// The last operation failed.
    Failed,
}

/// What to do next.
#[derive(Clone, Copy, Debug, PartialEq, Eq, Structural)]
pub enum PipeAction {
    /// Read from the source into the buffer.
    Read,
    /// Write `buffer[start..end]` to the sink.
    Write(usize, usize),
    /// Flush the sink.
    Flush,
    /// Stop forwarding.
    Stop(PipeEnd),
}

/// The step the forwarder waits on.
#[derive(Clone, Copy, Debug, PartialEq, Eq, Structural)]
pub enum Phase {
    Reading,
    Writing,
    Flushing,
    Stopped,
}

/// How far the current chunk has been forwarded: `filled` bytes were read
/// into the buffer, of which the first `written` reached the sink.
pub struct Forwarder {
    pub phase: Phase,
    pub filled: usize,
    pub written: usize,
}

impl Forwarder {
    pub open spec fn wf(&self) -> bool {
        &&& self.written <= self.filled <= FORWARD_CHUNK
        &&& self.phase == Phase::Writing ==> self.written < self.filled
        &&& self.phase == Phase::Reading ==> self.written == self.filled
    }

    /// A forwarder about to read its first chunk; the first action is `Read`.
    pub fn new() -> (r: Self)
        ensures
            r.wf(),
            r.phase == Phase::Reading,
            r.filled == 0,
            r.written == 0,
    {
        Forwarder { phase: Phase::Reading, filled: 0, written: 0 }
    }
}

/// The action that follows `event`. A chunk is read only once every byte
/// of the one before has been written; each write starts where the last one
/// ended; every write that took bytes is followed by a flush; forwarding
/// stops at end of stream and on any failure.
pub fn forward_pipe(fwd: &mut Forwarder, event: PipeEvent) -> (r: PipeAction)
    requires
        old(fwd).wf(),
    ensures
        final(fwd).wf(),
        (r is Stop) == (final(fwd).phase == Phase::Stopped),
        r == PipeAction::Read ==> final(fwd).phase == Phase::Reading && old(fwd).written
            == old(fwd).filled,
        r is Write ==> {
            &&& final(fwd).phase == Phase::Writing
            &&& r->Write_0 == final(fwd).written
            &&& r->Write_1 == final(fwd).filled
        },
        r == PipeAction::Flush ==> final(fwd).phase == Phase::Flushing,
        event == PipeEvent::Failed ==> (r == PipeAction::Stop(
            if old(fwd).phase == Phase::Reading {
                PipeEnd::ReadFailed
            } else {
                PipeEnd::WriteFailed
            },
        ) || old(fwd).phase == Phase::Stopped),
        old(fwd).phase == Phase::Stopped ==> r == PipeAction::Stop(PipeEnd::Protocol),
        old(fwd).phase == Phase::Reading ==> match event {
            PipeEvent::Read(n) => if n == 0 {
                r == PipeAction::Stop(PipeEnd::EndOfStream)
            } else if n > FORWARD_CHUNK {
                r == PipeAction::Stop(PipeEnd::Protocol)
            } else {
                r == PipeAction::Write(0, n) && final(fwd).filled == n
            },
            PipeEvent::Failed => true,
            _ => r == PipeAction::Stop(PipeEnd::Protocol),
        },
        old(fwd).phase == Phase::Writing ==> match event {
            PipeEvent::Wrote(k) => if k == 0 {
                r == PipeAction::Stop(PipeEnd::WriteFailed)
            } else if k > old(fwd).filled - old(fwd).written {
                r == PipeAction::Stop(PipeEnd::Protocol)
            } else {
                &&& r == PipeAction::Flush
                &&& final(fwd).filled == old(fwd).filled
                &&& final(fwd).written == old(fwd).written + k
            },
            PipeEvent::Failed => true,
            _ => r == PipeAction::Stop(PipeEnd::Protocol),
        },
        old(fwd).phase == Phase::Flushing ==> match event {
            PipeEvent::Flushed => if old(fwd).written == old(fwd).filled {
                r == PipeAction::Read
            } else {
                r == PipeAction::Write(old(fwd).written, old(fwd).filled)
            },
            PipeEvent::Failed => true,
            _ => r == PipeAction::Stop(PipeEnd::Protocol),
        },
{
    match (fwd.phase, event) {
        (Phase::Stopped, _) => PipeAction::Stop(PipeEnd::Protocol),
        (Phase::Reading, PipeEvent::Failed) => {
            fwd.phase = Phase::Stopped;
            PipeAction::Stop(PipeEnd::ReadFailed)
        },
        (_, PipeEvent::Failed) => {
            fwd.phase = Phase::Stopped;
            PipeAction::Stop(PipeEnd::WriteFailed)
        },
        (Phase::Reading, PipeEvent::Read(n)) => {
            if n == 0 {
                fwd.phase = Phase::Stopped;
                PipeAction::Stop(PipeEnd::EndOfStream)
            } else if n > FORWARD_CHUNK {
                fwd.phase = Phase::Stopped;
                PipeAction::Stop(PipeEnd::Protocol)
            } else {
                fwd.phase = Phase::Writing;
                fwd.filled = n;
                fwd.written = 0;
                PipeAction::Write(0, n)
            }
        },
        (Phase::Writing, PipeEvent::Wrote(k)) => {
            if k == 0 {
                fwd.phase = Phase::Stopped;
                PipeAction::Stop(PipeEnd::WriteFailed)
            } else if k > fwd.filled - fwd.written {
                fwd.phase = Phase::Stopped;
                PipeAction::Stop(PipeEnd::Protocol)
            } else {
                fwd.phase = Phase::Flushing;
                fwd.written = fwd.written + k;
                PipeAction::Flush
            }
        },
        (Phase::Flushing, PipeEvent::Flushed) => {
            if fwd.written == fwd.filled {
                fwd.phase = Phase::Reading;
                PipeAction::Read
            } else {
                fwd.phase = Phase::Writing;
                PipeAction::Write(fwd.written, fwd.filled)
            }
        },
        _ => {
            fwd.phase = Phase::Stopped;
            PipeAction::Stop(PipeEnd::Protocol)
        },
    }
}

} // verus!
