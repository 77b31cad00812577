//! One period of the coordination loop: what to do with the frames the
//! producers handed over, which producers to tick, and what to write to the
//! pipes. The caller drains the mailboxes, runs `tick`, and does the writes.

use vstd::prelude::*;
use crate::stream::{
    after_chunk, chunk_completes, next_chunk, SinkWarning, StreamState, TwitchStream,
    MIN_RAW_AUDIO,
};

verus! {

/// When the current video frame is written.
#[derive(Clone, Copy, Debug, PartialEq, Eq, Structural)]
pub enum VideoPolicy {
    /// Every period, repeating the last frame when no new one came.
    Repeat,
    /// Only in a period in which a new frame came.
    OnChange,
}

/// How a fresh audio buffer reaches the pipe.
#[derive(Clone, Copy, Debug, PartialEq, Eq, Structural)]
pub enum AudioPolicy {
    /// Written whole in the period it comes, as the producer chunked it.
    Raw,
    /// Kept as the current buffer and written one chunk per period,
    /// silence when there is none.
    Chunked,
}

/// What a period writes to the audio pipe.
pub enum AudioOut {
    /// Nothing this period.
    Nothing,
    /// These bytes.
    Write(Vec<u8>),
    /// The write was skipped for this reason.
    Skipped(SinkWarning),
}

/// The outcome of one period.
pub struct TickPlan {
    /// Tick the video producer: its frame was taken.
    pub tick_video: bool,
    /// Tick the audio producer: it may produce the next buffer.
    pub tick_audio: bool,
    /// Write the sink's current video frame (see `send_video_frame`).
    pub flush_video: bool,
    /// What to write to the audio pipe.
    pub audio: AudioOut,
}

/// The sink state after a period's fresh audio buffer, if any, was set.
pub open spec fn with_audio(s: StreamState, audio: Option<Vec<u8>>) -> StreamState {
    match audio {
        Some(a) => StreamState { video: s.video, audio: a@, cursor: 0 },
        None => s,
    }
}

/// The coordination loop's state: the sink and the two policies.
pub struct Coordinator {
    pub sink: TwitchStream,
    pub video_policy: VideoPolicy,
    pub audio_policy: AudioPolicy,
}

impl Coordinator {
    pub open spec fn wf(&self) -> bool {
        self.sink.wf()
    }

    /// A loop with an empty sink.
    pub fn new(video_policy: VideoPolicy, audio_policy: AudioPolicy) -> (r: Self)
        ensures
            r.wf(),
            r.sink@.video.len() == 0,
            r.sink@.audio.len() == 0,
            r.sink@.cursor == 0,
            r.video_policy == video_policy,
            r.audio_policy == audio_policy,
    {
        Coordinator { sink: TwitchStream::new(), video_policy, audio_policy }
    }

    /// Runs one period on what the mailboxes held: a fresh video frame
    /// becomes the current one and its producer is ticked; a fresh audio
    /// buffer is written whole (`Raw`) or becomes the current buffer
    /// (`Chunked`), in which case one chunk is written every period and the
    /// producer is ticked when the buffer is used up.
    pub fn tick(&mut self, video: Option<Vec<u8>>, audio: Option<Vec<u8>>) -> (r: TickPlan)
        requires
            old(self).wf(),
        ensures
            final(self).wf(),
            final(self).video_policy == old(self).video_policy,
            final(self).audio_policy == old(self).audio_policy,
            r.tick_video == video.is_some(),
            final(self).sink@.video == (match video {
                Some(v) => v@,
                None => old(self).sink@.video,
            }),
            r.flush_video == (old(self).video_policy == VideoPolicy::Repeat || video.is_some()),
            old(self).audio_policy == AudioPolicy::Raw ==> {
                &&& final(self).sink@.audio == old(self).sink@.audio
                &&& final(self).sink@.cursor == old(self).sink@.cursor
                &&& r.tick_audio == audio.is_some()
                &&& match audio {
                    None => r.audio is Nothing,
                    Some(a) => if a@.len() < MIN_RAW_AUDIO {
                        r.audio == AudioOut::Skipped(SinkWarning::ShortAudio)
                    } else {
                        r.audio is Write && r.audio->Write_0@ == a@
                    },
                }
            },
            old(self).audio_policy == AudioPolicy::Chunked ==> {
                let s = with_audio(old(self).sink@, audio);
                &&& final(self).sink@.audio == after_chunk(s).audio
                &&& final(self).sink@.cursor == after_chunk(s).cursor
                &&& r.tick_audio == chunk_completes(s)
                &&& r.audio is Write
                &&& r.audio->Write_0@ == next_chunk(s)
            },
    {
        let tick_video = video.is_some();
        match video {
            Some(v) => self.sink.set_video_buffer(v),
            None => {},
        }
        let flush_video = match self.video_policy {
            VideoPolicy::Repeat => true,
            VideoPolicy::OnChange => tick_video,
        };
        match self.audio_policy {
            AudioPolicy::Raw => {
                match audio {
                    None => TickPlan {
                        tick_video,
                        tick_audio: false,
                        flush_video,
                        audio: AudioOut::Nothing,
                    },
                    Some(a) => {
                        let out = match self.sink.send_audio_raw_frame(a.as_slice()) {
                            Ok(_) => AudioOut::Write(a),
                            Err(w) => AudioOut::Skipped(w),
                        };
                        TickPlan { tick_video, tick_audio: true, flush_video, audio: out }
                    },
                }
            },
            AudioPolicy::Chunked => {
                match audio {
                    Some(a) => self.sink.set_audio_buffer(a),
                    None => {},
                }
                let (chunk, done) = self.sink.send_audio_next_frame();
                TickPlan { tick_video, tick_audio: done, flush_video, audio: AudioOut::Write(chunk) }
            },
        }
    }
}

} // verus!
