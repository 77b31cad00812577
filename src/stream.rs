//! The stream sink: the current video frame and the current audio buffer,
//! with the cursor that cuts the audio into fixed-size chunks.

use vstd::prelude::*;
use vstd::slice::{slice_subrange, slice_to_vec};

verus! {

/// Size of one audio chunk written to the audio pipe.
pub const AUDIO_CAP: usize = 800;

/// Shortest audio buffer accepted by `send_audio_raw_frame`.
pub const MIN_RAW_AUDIO: usize = 4;

/// A non-fatal condition met while flushing: the write is skipped.
#[derive(Clone, Copy, Debug, PartialEq, Eq, Structural)]
pub enum SinkWarning {
    /// The video frame to send was empty.
    EmptyVideo,
    /// The raw audio buffer was shorter than `MIN_RAW_AUDIO` bytes.
    ShortAudio,
}

/// The abstract state of a sink.
pub struct StreamState {
    pub video: Seq<u8>,
    pub audio: Seq<u8>,
    pub cursor: nat,
}

/// One chunk of silence.
pub open spec fn silence() -> Seq<u8> {
    Seq::new(AUDIO_CAP as nat, |i: int| 0u8)
}

/// Where the next audio chunk ends.
pub open spec fn chunk_end(s: StreamState) -> nat {
    if s.cursor + AUDIO_CAP < s.audio.len() {
        (s.cursor + AUDIO_CAP) as nat
    } else {
        s.audio.len()
    }
}

/// The bytes the next `send_audio_next_frame` writes.
pub open spec fn next_chunk(s: StreamState) -> Seq<u8> {
    if s.audio.len() == 0 {
        silence()
    } else {
        s.audio.subrange(s.cursor as int, chunk_end(s) as int)
    }
}

/// Whether the next chunk finishes the current audio buffer.
pub open spec fn chunk_completes(s: StreamState) -> bool {
    s.audio.len() == 0 || chunk_end(s) >= s.audio.len()
}

/// The state after the next chunk has been written.
pub open spec fn after_chunk(s: StreamState) -> StreamState {
    if chunk_completes(s) {
        StreamState { video: s.video, audio: Seq::empty(), cursor: 0 }
    } else {
        StreamState { video: s.video, audio: s.audio, cursor: chunk_end(s) }
    }
}

/// The chunks written by `k` successive calls of `send_audio_next_frame`.
pub open spec fn chunks_after(s: StreamState, k: nat) -> Seq<Seq<u8>>
    decreases k,
{
    if k == 0 {
        Seq::empty()
    } else {
        seq![next_chunk(s)] + chunks_after(after_chunk(s), (k - 1) as nat)
    }
}

/// The state after `k` successive calls of `send_audio_next_frame`.
pub open spec fn state_after(s: StreamState, k: nat) -> StreamState
    decreases k,
{
    if k == 0 {
        s
    } else {
        state_after(after_chunk(s), (k - 1) as nat)
    }
}

/// The number of chunks that `len` bytes take: `len / AUDIO_CAP`, rounded up.
pub open spec fn chunk_count(len: nat) -> nat {
    ((len + AUDIO_CAP - 1) / (AUDIO_CAP as int)) as nat
}

proof fn lemma_chunks_from_cursor(s: StreamState)
    requires
        s.cursor < s.audio.len(),
    ensures
        ({
            let m = chunk_count((s.audio.len() - s.cursor) as nat);
            &&& m >= 1
            &&& chunks_after(s, m).len() == m
            &&& chunks_after(s, m).flatten() == s.audio.subrange(s.cursor as int, s.audio.len() as int)
            &&& forall|k: nat| k + 1 < m ==> !chunk_completes(#[trigger] state_after(s, k))
            &&& chunk_completes(state_after(s, (m - 1) as nat))
            &&& state_after(s, m).audio.len() == 0
            &&& state_after(s, m).video == s.video
        }),
    decreases s.audio.len() - s.cursor,
{
    let len = s.audio.len();
    let m = chunk_count((len - s.cursor) as nat);
    let next = after_chunk(s);
    if s.cursor + AUDIO_CAP >= len {
        assert(m == 1);
        let c1 = chunks_after(s, 1);
        assert(chunks_after(next, 0) == Seq::<Seq<u8>>::empty());
        assert(c1 == seq![next_chunk(s)] + chunks_after(next, 0));
        assert(c1 =~= seq![next_chunk(s)]);
        assert(c1.drop_first() =~= Seq::<Seq<u8>>::empty());
        assert(c1.drop_first().flatten() =~= Seq::<u8>::empty());
        assert(c1.flatten() =~= next_chunk(s));
        assert(state_after(s, 0) == s);
        assert(state_after(next, 0) == next);
    } else {
        assert(!chunk_completes(s));
        assert(next.cursor == s.cursor + AUDIO_CAP);
        lemma_chunks_from_cursor(next);
        let m1 = chunk_count((len - next.cursor) as nat);
        assert(m1 == m - 1);
        let rest = chunks_after(next, m1);
        assert(chunks_after(s, m) == seq![next_chunk(s)] + rest);
        assert((seq![next_chunk(s)] + rest).drop_first() =~= rest);
        assert(s.audio.subrange(s.cursor as int, len as int) =~= next_chunk(s) + next.audio.subrange(
            next.cursor as int,
            len as int,
        ));
        assert forall|k: nat| k + 1 < m implies !chunk_completes(#[trigger] state_after(s, k)) by {
            if k > 0 {
                assert(state_after(s, k) == state_after(next, (k - 1) as nat));
            }
        }
        assert(state_after(s, (m - 1) as nat) == state_after(next, (m1 - 1) as nat));
        assert(state_after(s, m) == state_after(next, m1));
    }
}

/// Cutting a non-empty audio buffer with `send_audio_next_frame` takes
/// `chunk_count(len)` calls; the chunks, joined, give back the buffer exactly;
/// only the last call reports the buffer used up, and after it the sink
/// holds no audio.
pub proof fn audio_chunks_round_trip(video: Seq<u8>, buf: Seq<u8>)
    requires
        buf.len() > 0,
    ensures
        ({
            let s = StreamState { video, audio: buf, cursor: 0 };
            let m = chunk_count(buf.len());
            &&& chunks_after(s, m).len() == m
            &&& chunks_after(s, m).flatten() == buf
            &&& forall|k: nat| k + 1 < m ==> !chunk_completes(#[trigger] state_after(s, k))
            &&& chunk_completes(state_after(s, (m - 1) as nat))
            &&& state_after(s, m).audio.len() == 0
        }),
{
    let s = StreamState { video, audio: buf, cursor: 0 };
    lemma_chunks_from_cursor(s);
    assert(buf.subrange(0, buf.len() as int) =~= buf);
}

/// What a sink holds between flushes. The pipes themselves belong to the
/// caller: the sink says what to write to them.
pub struct TwitchStream {
    video_buf: Vec<u8>,
    audio_buf_pointer: usize,
    audio_buf: Vec<u8>,
}

impl View for TwitchStream {
    type V = StreamState;

    closed spec fn view(&self) -> StreamState {
        StreamState {
            video: self.video_buf@,
            audio: self.audio_buf@,
            cursor: self.audio_buf_pointer as nat,
        }
    }
}

impl TwitchStream {
    /// The cursor never passes the end of the audio buffer, and stands at 0
    /// once the buffer is used up.
    pub closed spec fn wf(&self) -> bool {
        self.audio_buf_pointer == 0 || self.audio_buf_pointer < self.audio_buf@.len()
    }

    /// A sink with no video frame and no audio.
    pub fn new() -> (r: Self)
        ensures
            r.wf(),
            r@.video == Seq::<u8>::empty(),
            r@.audio == Seq::<u8>::empty(),
            r@.cursor == 0,
    {
        TwitchStream { video_buf: Vec::new(), audio_buf_pointer: 0, audio_buf: Vec::new() }
    }

    /// Replaces the current video frame.
    pub fn set_video_buffer(&mut self, buf: Vec<u8>)
        requires
            old(self).wf(),
        ensures
            final(self).wf(),
            final(self)@.video == buf@,
            final(self)@.audio == old(self)@.audio,
            final(self)@.cursor == old(self)@.cursor,
    {
        self.video_buf = buf;
    }

    /// Replaces the current audio buffer; what was left of the previous one
    /// is dropped and chunking starts at the beginning of `buf`.
    pub fn set_audio_buffer(&mut self, buf: Vec<u8>)
        requires
            old(self).wf(),
        ensures
            final(self).wf(),
            final(self)@.video == old(self)@.video,
            final(self)@.audio == buf@,
            final(self)@.cursor == 0,
    {
        self.audio_buf = buf;
        self.audio_buf_pointer = 0;
    }

    /// The bytes to write to the video pipe: the whole current frame, or a
    /// warning and nothing to write when the frame is empty.
    pub fn send_video_frame(&self) -> (r: Result<&[u8], SinkWarning>)
        ensures
            self@.video.len() == 0 ==> r == Err::<&[u8], SinkWarning>(SinkWarning::EmptyVideo),
            self@.video.len() > 0 ==> r.is_ok() && r.unwrap()@ == self@.video,
    {
        if self.video_buf.len() == 0 {
            Err(SinkWarning::EmptyVideo)
        } else {
            Ok(self.video_buf.as_slice())
        }
    }

    /// The bytes to write to the video pipe for a frame handed over
    /// directly, without touching the current frame.
    pub fn send_video_raw_frame<'a>(&self, buf: &'a [u8]) -> (r: Result<&'a [u8], SinkWarning>)
        ensures
            buf@.len() == 0 ==> r == Err::<&[u8], SinkWarning>(SinkWarning::EmptyVideo),
            buf@.len() > 0 ==> r.is_ok() && r.unwrap()@ == buf@,
    {
        if buf.len() == 0 {
            Err(SinkWarning::EmptyVideo)
        } else {
            Ok(buf)
        }
    }

    /// The bytes to write to the audio pipe for a buffer chunked by the
    /// caller: the buffer itself, or a warning when it holds fewer than
    /// `MIN_RAW_AUDIO` bytes.
    pub fn send_audio_raw_frame<'a>(&self, buf: &'a [u8]) -> (r: Result<&'a [u8], SinkWarning>)
        ensures
            buf@.len() < MIN_RAW_AUDIO ==> r == Err::<&[u8], SinkWarning>(SinkWarning::ShortAudio),
            buf@.len() >= MIN_RAW_AUDIO ==> r.is_ok() && r.unwrap()@ == buf@,
    {
        if buf.len() < MIN_RAW_AUDIO {
            Err(SinkWarning::ShortAudio)
        } else {
            Ok(buf)
        }
    }

    /// Takes the next chunk of at most `AUDIO_CAP` bytes from the current
    /// audio buffer, or a chunk of silence when there is none. The flag says
    /// whether the buffer is now used up, so that a new one may be set.
    pub fn send_audio_next_frame(&mut self) -> (r: (Vec<u8>, bool))
        requires
            old(self).wf(),
        ensures
            final(self).wf(),
            r.0@ == next_chunk(old(self)@),
            r.1 == chunk_completes(old(self)@),
            final(self)@ == after_chunk(old(self)@),
    {
        if self.audio_buf.len() == 0 {
            let chunk: Vec<u8> = vec![0u8; AUDIO_CAP];
            assert(chunk@ =~= silence());
            assert(self.audio_buf@ =~= Seq::<u8>::empty());
            return (chunk, true);
        }
        let start = self.audio_buf_pointer;
        let end: usize = if self.audio_buf.len() - start > AUDIO_CAP {
            start + AUDIO_CAP
        } else {
            self.audio_buf.len()
        };
        let chunk = slice_to_vec(slice_subrange(self.audio_buf.as_slice(), start, end));
        if end >= self.audio_buf.len() {
            self.audio_buf = Vec::new();
            self.audio_buf_pointer = 0;
            (chunk, true)
        } else {
            self.audio_buf_pointer = end;
            (chunk, false)
        }
    }
}

} // verus!
