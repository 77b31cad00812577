use ebook_reader::forward::{forward_pipe, Forwarder, PipeAction, PipeEnd, PipeEvent, FORWARD_CHUNK};
use ebook_reader::setup::{
    channel_created, output_target, setup_plan, Channel, CreateOutcome, SetupStep, AUDIO_PATH,
    PREVIEW_PATH, VIDEO_PATH,
};
use ebook_reader::config::EbookError;

#[test]
fn forwarder_writes_every_byte_before_reading_again() {
    let mut fwd = Forwarder::new();
    assert_eq!(forward_pipe(&mut fwd, PipeEvent::Read(10)), PipeAction::Write(0, 10));
    assert_eq!(forward_pipe(&mut fwd, PipeEvent::Wrote(4)), PipeAction::Flush);
    assert_eq!(forward_pipe(&mut fwd, PipeEvent::Flushed), PipeAction::Write(4, 10));
    assert_eq!(forward_pipe(&mut fwd, PipeEvent::Wrote(6)), PipeAction::Flush);
    assert_eq!(forward_pipe(&mut fwd, PipeEvent::Flushed), PipeAction::Read);
    assert_eq!(forward_pipe(&mut fwd, PipeEvent::Read(0)), PipeAction::Stop(PipeEnd::EndOfStream));
    assert_eq!(forward_pipe(&mut fwd, PipeEvent::Read(3)), PipeAction::Stop(PipeEnd::Protocol));
}

#[test]
fn forwarder_stops_on_failures() {
    let mut fwd = Forwarder::new();
    assert_eq!(forward_pipe(&mut fwd, PipeEvent::Failed), PipeAction::Stop(PipeEnd::ReadFailed));
    let mut fwd = Forwarder::new();
    forward_pipe(&mut fwd, PipeEvent::Read(5));
    assert_eq!(forward_pipe(&mut fwd, PipeEvent::Wrote(0)), PipeAction::Stop(PipeEnd::WriteFailed));
    let mut fwd = Forwarder::new();
    forward_pipe(&mut fwd, PipeEvent::Read(5));
    assert_eq!(forward_pipe(&mut fwd, PipeEvent::Failed), PipeAction::Stop(PipeEnd::WriteFailed));
    let mut fwd = Forwarder::new();
    assert_eq!(
        forward_pipe(&mut fwd, PipeEvent::Read(FORWARD_CHUNK + 1)),
        PipeAction::Stop(PipeEnd::Protocol)
    );
}

#[test]
fn setup_plan_for_two_encoders() {
    assert_eq!(
        setup_plan(2, false),
        vec![
            SetupStep::Create(Channel::Video),
            SetupStep::Create(Channel::Audio),
            SetupStep::Spawn(0),
            SetupStep::DrainStderr(0),
            SetupStep::Spawn(1),
            SetupStep::DrainStderr(1),
            SetupStep::Forward(0),
            SetupStep::OpenForWrite(Channel::Video),
            SetupStep::OpenForWrite(Channel::Audio),
        ]
    );
    assert_eq!(
        setup_plan(2, true),
        vec![
            SetupStep::Create(Channel::Video),
            SetupStep::Create(Channel::Audio),
            SetupStep::Create(Channel::Preview),
            SetupStep::Spawn(0),
            SetupStep::DrainStderr(0),
            SetupStep::Spawn(1),
            SetupStep::DrainStderr(1),
            SetupStep::Forward(0),
            SetupStep::SpawnPlayer,
            SetupStep::TeeToPreview,
            SetupStep::PlayPreview,
            SetupStep::OpenForWrite(Channel::Video),
            SetupStep::OpenForWrite(Channel::Audio),
        ]
    );
}

#[test]
fn channel_paths() {
    assert_eq!(Channel::Video.path(), VIDEO_PATH);
    assert_eq!(Channel::Audio.path(), AUDIO_PATH);
    assert_eq!(Channel::Preview.path(), PREVIEW_PATH);
    assert_eq!(VIDEO_PATH, "/tmp/ebook-reader.video.fifo");
}

#[test]
fn creating_a_channel_twice_is_no_error() {
    assert_eq!(channel_created(Channel::Video, CreateOutcome::Created), Ok(()));
    assert_eq!(channel_created(Channel::Video, CreateOutcome::AlreadyExists), Ok(()));
    assert_eq!(
        channel_created(Channel::Audio, CreateOutcome::Failed),
        Err(EbookError::Setup("/tmp/ebook-reader.audio.fifo".to_string()))
    );
}

#[test]
fn output_target_carries_the_key() {
    assert_eq!(output_target("abc", false), "rtmp://live.twitch.tv/app/abc");
    assert_eq!(
        output_target("abc", true),
        "[f=nut]pipe:|[f=flv]rtmp://live.twitch.tv/app/abc"
    );
}

#[test]
fn setup_plan_for_one_encoder() {
    assert_eq!(
        setup_plan(1, false),
        vec![
            SetupStep::Create(Channel::Video),
            SetupStep::Create(Channel::Audio),
            SetupStep::Spawn(0),
            SetupStep::DrainStderr(0),
            SetupStep::OpenForWrite(Channel::Video),
            SetupStep::OpenForWrite(Channel::Audio),
        ]
    );
}
