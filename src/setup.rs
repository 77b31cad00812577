//! Session setup: the named pipes, the chain of encoder processes and the
//! order in which the caller creates, spawns, wires and opens them. Opening
//! a named pipe for writing blocks until a reader opens it, so each open
//! comes after the process that reads the pipe has been spawned.

use vstd::prelude::*;
use vstd::string::*;
use crate::config::{EbookError, EbookResult};

verus! {

pub const VIDEO_PATH: &'static str = "/tmp/ebook-reader.video.fifo";
pub const AUDIO_PATH: &'static str = "/tmp/ebook-reader.audio.fifo";
pub const PREVIEW_PATH: &'static str = "/tmp/ebook-reader.preview.fifo";

/// The ingest endpoint; the stream key follows it.
pub const INGEST_URL: &'static str = "rtmp://live.twitch.tv/app/";

/// The tee output that also sends the stream to the standard output.
pub const TEE_PREFIX: &'static str = "[f=nut]pipe:|[f=flv]";

/// A named pipe of the session.
#[derive(Clone, Copy, Debug, PartialEq, Eq, Structural)]
pub enum Channel {
    /// Raw video frames, read by the first encoder.
    Video,
    /// Raw audio samples, read by the last encoder.
    Audio,
    /// The final stream, read back for local playback.
    Preview,
}

pub open spec fn channel_path(c: Channel) -> &'static str {
    match c {
        Channel::Video => VIDEO_PATH,
        Channel::Audio => AUDIO_PATH,
        Channel::Preview => PREVIEW_PATH,
    }
}

impl Channel {
    /// Where the pipe lives in the file system.
    pub fn path(&self) -> (r: &'static str)
        ensures
            r == channel_path(*self),
    {
        match self {
            Channel::Video => VIDEO_PATH,
            Channel::Audio => AUDIO_PATH,
            Channel::Preview => PREVIEW_PATH,
        }
    }
}

/// One step of the setup, in the order the caller performs them.
#[derive(Clone, Copy, Debug, PartialEq, Eq, Structural)]
pub enum SetupStep {
    /// Create the named pipe; one that already exists is kept.
    Create(Channel),
    /// Spawn encoder `i` of the chain.
    Spawn(usize),
    /// Attach a consumer to the error stream of encoder `i`.
    DrainStderr(usize),
    /// Forward the output of encoder `i` into the input of encoder `i + 1`.
    Forward(usize),
    /// Spawn the local player and attach a consumer to its error stream.
    SpawnPlayer,
    /// Open the preview pipe for writing and forward the output of the last
    /// encoder into it, on a thread of its own.
    TeeToPreview,
    /// Open the preview pipe for reading and forward it into the player.
    PlayPreview,
    /// Open the pipe for writing; this blocks until its reader opens it.
    OpenForWrite(Channel),
}

/// The setup of a chain of `n` encoders, with or without local playback.
pub open spec fn setup_steps(n: nat, preview: bool) -> Seq<SetupStep> {
    let create = if preview {
        seq![
            SetupStep::Create(Channel::Video),
            SetupStep::Create(Channel::Audio),
            SetupStep::Create(Channel::Preview),
        ]
    } else {
        seq![SetupStep::Create(Channel::Video), SetupStep::Create(Channel::Audio)]
    };
    let spawn = Seq::new(
        2 * n,
        |j: int|
            if j % 2 == 0 {
                SetupStep::Spawn((j / 2) as usize)
            } else {
                SetupStep::DrainStderr((j / 2) as usize)
            },
    );
    let forward = Seq::new((n - 1) as nat, |j: int| SetupStep::Forward(j as usize));
    let play = if preview {
        seq![SetupStep::SpawnPlayer, SetupStep::TeeToPreview, SetupStep::PlayPreview]
    } else {
        Seq::empty()
    };
    create + spawn + forward + play + seq![
        SetupStep::OpenForWrite(Channel::Video),
        SetupStep::OpenForWrite(Channel::Audio),
    ]
}

/// The steps to set up a chain of `n` encoders.
pub fn setup_plan(n: usize, preview: bool) -> (r: Vec<SetupStep>)
    requires
        n >= 1,
    ensures
        r@ == setup_steps(n as nat, preview),
{
    let mut steps: Vec<SetupStep> = Vec::new();
    steps.push(SetupStep::Create(Channel::Video));
    steps.push(SetupStep::Create(Channel::Audio));
    if preview {
        steps.push(SetupStep::Create(Channel::Preview));
    }
    let ghost create = steps@;
    let mut i: usize = 0;
    while i < n
        invariant
            i <= n,
            steps@ == create + Seq::new(
                2 * i as nat,
                |j: int|
                    if j % 2 == 0 {
                        SetupStep::Spawn((j / 2) as usize)
                    } else {
                        SetupStep::DrainStderr((j / 2) as usize)
                    },
            ),
        decreases n - i,
    {
        steps.push(SetupStep::Spawn(i));
        steps.push(SetupStep::DrainStderr(i));
        i = i + 1;
        assert(steps@ =~= create + Seq::new(
            2 * i as nat,
            |j: int|
                if j % 2 == 0 {
                    SetupStep::Spawn((j / 2) as usize)
                } else {
                    SetupStep::DrainStderr((j / 2) as usize)
                },
        ));
    }
    let ghost spawned = steps@;
    let mut k: usize = 0;
    while k + 1 < n
        invariant
            k < n,
            steps@ == spawned + Seq::new(k as nat, |j: int| SetupStep::Forward(j as usize)),
        decreases n - k,
    {
        steps.push(SetupStep::Forward(k));
        k = k + 1;
        assert(steps@ =~= spawned + Seq::new(k as nat, |j: int| SetupStep::Forward(j as usize)));
    }
    if preview {
        steps.push(SetupStep::SpawnPlayer);
        steps.push(SetupStep::TeeToPreview);
        steps.push(SetupStep::PlayPreview);
    }
    steps.push(SetupStep::OpenForWrite(Channel::Video));
    steps.push(SetupStep::OpenForWrite(Channel::Audio));
    assert(steps@ =~= setup_steps(n as nat, preview));
    steps
}

/// Where the step that spawns encoder `i` stands in the setup.
pub open spec fn spawn_at(i: nat, preview: bool) -> int {
    (if preview { 3int } else { 2int }) + 2 * i
}

/// Where the step that forwards encoder `i` into encoder `i + 1` stands.
pub open spec fn forward_at(n: nat, i: nat, preview: bool) -> int {
    (if preview { 3int } else { 2int }) + 2 * n + i
}

/// Where the blocking opens of the video and audio pipes stand.
pub open spec fn open_at(n: nat, preview: bool) -> int {
    (if preview { 6int } else { 2int }) + 2 * n + (n - 1)
}

/// In the setup of a chain of `n` encoders: every pipe is created before
/// anything is spawned; every encoder is spawned, and a consumer is attached
/// to its error stream right after; each pair of neighbours is wired once
/// both are spawned; the pipes are opened for writing only after their
/// readers (the first and the last encoder) were spawned, and last; with
/// local playback, the tee comes after the last encoder was spawned.
pub proof fn setup_order(n: nat, preview: bool)
    requires
        n >= 1,
    ensures
        ({
            let s = setup_steps(n, preview);
            &&& s[0] == SetupStep::Create(Channel::Video)
            &&& s[1] == SetupStep::Create(Channel::Audio)
            &&& preview ==> s[2] == SetupStep::Create(Channel::Preview)
            &&& forall|i: nat|
                i < n ==> s[#[trigger] spawn_at(i, preview)] == SetupStep::Spawn(i as usize) && s[spawn_at(
                    i,
                    preview,
                ) + 1] == SetupStep::DrainStderr(i as usize)
            &&& forall|i: nat|
                i + 1 < n ==> s[#[trigger] forward_at(n, i, preview)] == SetupStep::Forward(
                    i as usize,
                ) && spawn_at(i + 1, preview) < forward_at(n, i, preview)
            &&& preview ==> s[forward_at(n, (n - 1) as nat, preview) + 1] == SetupStep::TeeToPreview
                && spawn_at((n - 1) as nat, preview) < forward_at(n, (n - 1) as nat, preview) + 1
            &&& s.len() == open_at(n, preview) + 2
            &&& s[open_at(n, preview)] == SetupStep::OpenForWrite(Channel::Video)
            &&& s[open_at(n, preview) + 1] == SetupStep::OpenForWrite(Channel::Audio)
            &&& spawn_at(0, preview) < open_at(n, preview)
            &&& spawn_at((n - 1) as nat, preview) < open_at(n, preview)
        }),
{
    let s = setup_steps(n, preview);
    assert forall|i: nat| i < n implies s[#[trigger] spawn_at(i, preview)] == SetupStep::Spawn(
        i as usize,
    ) && s[spawn_at(i, preview) + 1] == SetupStep::DrainStderr(i as usize) by {
        assert((2 * i) % 2 == 0 && (2 * i) / 2 == i);
        assert((2 * i + 1) % 2 == 1 && (2 * i + 1) / 2 == i);
    }
}

/// The output target of the last encoder: the ingest endpoint with the
/// stream key, behind a tee to the standard output when the stream is also
/// played locally.
pub fn output_target(stream_key: &str, preview: bool) -> (r: String)
    ensures
        r@ == (if preview { TEE_PREFIX@ } else { Seq::<char>::empty() }) + INGEST_URL@ + stream_key@,
{
    let mut s = String::new();
    if preview {
        s.append(TEE_PREFIX);
    }
    s.append(INGEST_URL);
    s.append(stream_key);
    s
}

/// What creating a named pipe gave.
#[derive(Clone, Copy, Debug, PartialEq, Eq, Structural)]
pub enum CreateOutcome {
    Created,
    /// A node already stands at the path.
    AlreadyExists,
    Failed,
}

/// Whether setup may go on after creating `channel`: a pipe that already
/// exists is as good as a new one; any other failure is a setup error that
/// names the path.
pub fn channel_created(channel: Channel, outcome: CreateOutcome) -> (r: EbookResult<()>)
    ensures
        outcome != CreateOutcome::Failed ==> r == Ok::<(), EbookError>(()),
        outcome == CreateOutcome::Failed ==> r is Err && r->Err_0 is Setup && r->Err_0->Setup_0@
            == channel_path(channel)@,
{
    match outcome {
        CreateOutcome::Failed => Err(EbookError::Setup(String::from_str(channel.path()))),
        _ => Ok(()),
    }
}

} // verus!
