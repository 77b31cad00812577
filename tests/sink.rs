use ebook_reader::coordinator::{AudioOut, AudioPolicy, Coordinator, VideoPolicy};
use ebook_reader::mailbox::{get_last_message, Mailbox};
use ebook_reader::stream::{SinkWarning, TwitchStream, AUDIO_CAP};

#[test]
fn empty_video_frame_warns_and_writes_nothing() {
    let sink = TwitchStream::new();
    assert_eq!(sink.send_video_frame(), Err(SinkWarning::EmptyVideo));
}

#[test]
fn video_frame_is_written_whole() {
    let mut sink = TwitchStream::new();
    sink.set_video_buffer(vec![1, 2, 3]);
    assert_eq!(sink.send_video_frame(), Ok(&[1u8, 2, 3][..]));
    assert_eq!(sink.send_video_frame(), Ok(&[1u8, 2, 3][..]));
}

#[test]
fn raw_video_frame_skips_empty() {
    let sink = TwitchStream::new();
    assert_eq!(sink.send_video_raw_frame(&[]), Err(SinkWarning::EmptyVideo));
    assert_eq!(sink.send_video_raw_frame(&[9]), Ok(&[9u8][..]));
}

#[test]
fn short_raw_audio_is_rejected() {
    let sink = TwitchStream::new();
    for n in 0..4 {
        let buf = vec![7u8; n];
        assert_eq!(sink.send_audio_raw_frame(&buf), Err(SinkWarning::ShortAudio));
    }
    let buf = vec![7u8; 4];
    assert_eq!(sink.send_audio_raw_frame(&buf), Ok(&buf[..]));
}

#[test]
fn empty_audio_gives_one_chunk_of_silence() {
    let mut sink = TwitchStream::new();
    let (chunk, done) = sink.send_audio_next_frame();
    assert_eq!(chunk, vec![0u8; AUDIO_CAP]);
    assert!(done);
}

#[test]
fn audio_chunks_join_back_into_the_buffer() {
    for len in [1usize, 799, 800, 801, 1600, 2000, 2401] {
        let buf: Vec<u8> = (0..len).map(|i| (i % 251) as u8 + 1).collect();
        let mut sink = TwitchStream::new();
        sink.set_audio_buffer(buf.clone());
        let mut joined = Vec::new();
        let mut calls = 0;
        loop {
            let (chunk, done) = sink.send_audio_next_frame();
            calls += 1;
            assert!(chunk.len() <= AUDIO_CAP);
            joined.extend_from_slice(&chunk);
            if done {
                break;
            }
        }
        assert_eq!(calls, (len + AUDIO_CAP - 1) / AUDIO_CAP);
        assert_eq!(joined, buf);
        let (after, done) = sink.send_audio_next_frame();
        assert_eq!(after, vec![0u8; AUDIO_CAP]);
        assert!(done);
    }
}

#[test]
fn new_audio_buffer_restarts_the_cursor() {
    let mut sink = TwitchStream::new();
    sink.set_audio_buffer(vec![1u8; 2000]);
    let (first, _) = sink.send_audio_next_frame();
    assert_eq!(first.len(), 800);
    sink.set_audio_buffer(vec![2u8; 500]);
    let (chunk, done) = sink.send_audio_next_frame();
    assert_eq!(chunk, vec![2u8; 500]);
    assert!(done);
}

#[test]
fn mailbox_gives_only_the_last_value() {
    let mut mb = Mailbox::new();
    assert_eq!(get_last_message(&mut mb), None::<u32>);
    mb.send(1u32);
    mb.send(2);
    mb.send(3);
    assert!(!mb.is_empty());
    assert_eq!(get_last_message(&mut mb), Some(3));
    assert!(mb.is_empty());
    assert_eq!(get_last_message(&mut mb), None);
}

#[test]
fn loop_sees_only_the_newest_frame() {
    let mut frames = Mailbox::new();
    let b1 = vec![1u8; 16];
    let b2 = vec![2u8; 16];
    frames.send(b1.clone());
    frames.send(b2.clone());
    let mut coord = Coordinator::new(VideoPolicy::Repeat, AudioPolicy::Raw);
    let plan = coord.tick(get_last_message(&mut frames), None);
    assert!(plan.tick_video);
    assert!(plan.flush_video);
    assert_eq!(coord.sink.send_video_frame(), Ok(&b2[..]));
    assert_ne!(coord.sink.send_video_frame(), Ok(&b1[..]));
}

#[test]
fn idle_periods_repeat_the_last_frame() {
    let mut coord = Coordinator::new(VideoPolicy::Repeat, AudioPolicy::Raw);
    coord.tick(Some(vec![5u8; 8]), None);
    for _ in 0..2 {
        let plan = coord.tick(None, None);
        assert!(plan.flush_video);
        assert!(!plan.tick_video);
        assert!(matches!(plan.audio, AudioOut::Nothing));
        assert_eq!(coord.sink.send_video_frame(), Ok(&[5u8; 8][..]));
    }
}

#[test]
fn on_change_policy_writes_only_new_frames() {
    let mut coord = Coordinator::new(VideoPolicy::OnChange, AudioPolicy::Raw);
    assert!(coord.tick(Some(vec![5u8; 8]), None).flush_video);
    assert!(!coord.tick(None, None).flush_video);
}

#[test]
fn raw_audio_policy_writes_fresh_buffers_whole() {
    let mut coord = Coordinator::new(VideoPolicy::Repeat, AudioPolicy::Raw);
    let plan = coord.tick(None, Some(vec![3u8; 1000]));
    assert!(plan.tick_audio);
    match plan.audio {
        AudioOut::Write(b) => assert_eq!(b, vec![3u8; 1000]),
        _ => panic!("expected a write"),
    }
    let plan = coord.tick(None, Some(vec![3u8; 2]));
    assert!(plan.tick_audio);
    assert!(matches!(plan.audio, AudioOut::Skipped(SinkWarning::ShortAudio)));
}

#[test]
fn drained_audio_buffer_is_sent_in_three_chunks() {
    let mut audio = Mailbox::new();
    audio.send(vec![4u8; 2000]);
    let mut coord = Coordinator::new(VideoPolicy::Repeat, AudioPolicy::Chunked);
    let mut sizes = Vec::new();
    let mut flags = Vec::new();
    for _ in 0..3 {
        let plan = coord.tick(None, get_last_message(&mut audio));
        match plan.audio {
            AudioOut::Write(b) => sizes.push(b.len()),
            _ => panic!("expected a write"),
        }
        flags.push(plan.tick_audio);
    }
    assert_eq!(sizes, vec![800, 800, 400]);
    assert_eq!(flags, vec![false, false, true]);
}
