use ebook_reader::config::{load_bool, load_env, parse_flag, EbookConfig, EbookError, EnvVar};
use ebook_reader::logs::{redact, LogBoard};
use ebook_reader::tts::{push_decimal, push_percent_encoded, Languages, TTS};

fn present(s: &str) -> EnvVar {
    EnvVar::Present(s.to_string())
}

#[test]
fn config_from_environment() {
    let c = EbookConfig::from_envs(present("key"), EnvVar::NotPresent, EnvVar::NotPresent).unwrap();
    assert_eq!(c.stream_key, "key");
    assert!(!c.preview);
    assert_eq!(c.log_file, None);
    let c = EbookConfig::from_envs(present("key"), present("1"), present("/tmp/log")).unwrap();
    assert!(c.preview);
    assert_eq!(c.log_file, Some("/tmp/log".to_string()));
    let c = EbookConfig::from_envs(present("key"), present("false"), EnvVar::NotPresent).unwrap();
    assert!(!c.preview);
}

#[test]
fn config_errors() {
    assert_eq!(
        EbookConfig::from_envs(EnvVar::NotPresent, present("1"), EnvVar::NotPresent),
        Err(EbookError::NoTwitchStreamKey)
    );
    assert_eq!(
        EbookConfig::from_envs(EnvVar::NotUnicode, present("1"), EnvVar::NotPresent),
        Err(EbookError::InvalidEnvEncoding("TWITCH_STREAM_KEY"))
    );
    assert_eq!(
        EbookConfig::from_envs(present("k"), EnvVar::NotUnicode, EnvVar::NotPresent),
        Err(EbookError::InvalidEnvEncoding("PREVIEW"))
    );
    assert_eq!(
        EbookConfig::from_envs(present("k"), present("0"), EnvVar::NotUnicode),
        Err(EbookError::InvalidEnvEncoding("LOG_FILE"))
    );
}

#[test]
fn flags() {
    assert!(!parse_flag("0"));
    assert!(!parse_flag("false"));
    assert!(parse_flag("1"));
    assert!(parse_flag("true"));
    assert!(parse_flag(""));
    assert!(parse_flag("False"));
    assert!(parse_flag("00"));
    assert_eq!(load_bool("X", present("0")), Ok(Some(false)));
    assert_eq!(load_bool("X", EnvVar::NotPresent), Ok(None));
    assert_eq!(load_env("X", present("v")), Ok(Some("v".to_string())));
    assert_eq!(load_env("X", EnvVar::NotUnicode), Err(EbookError::InvalidEnvEncoding("X")));
}

#[test]
fn description_masks_the_key() {
    let c = EbookConfig { stream_key: "secret".to_string(), preview: true, log_file: None };
    let text = c.describe();
    assert!(!text.contains("secret"));
    assert_eq!(
        text,
        "\x1b[1;32mConfiguration:\x1b[0m\n  \x1b[1;33mStream key : \x1b[1;31m******\x1b[0m\n  \x1b[1;33mPreview    : \x1b[1;32mtrue\x1b[0m\n  \x1b[1;33mLog File   : \x1b[1;31mNo\x1b[0m\n"
    );
    let c = EbookConfig { stream_key: "ab".to_string(), preview: false, log_file: Some("f.log".to_string()) };
    assert!(c.describe().contains("\x1b[1;32mf.log\x1b[0m"));
    assert!(c.describe().contains("false"));
}

#[test]
fn error_messages() {
    assert_eq!(
        EbookError::InvalidEnvEncoding("PREVIEW").message(),
        "Cannot get environment variable PREVIEW.\nIt was found but is not encoded correctly"
    );
    assert_eq!(EbookError::LoggerAlreadyInitialized.message(), "Logger was already initialized");
    assert_eq!(EbookError::Setup("/tmp/x".to_string()).message(), "Cannot set up /tmp/x");
}

#[test]
fn redaction_hides_the_key() {
    assert_eq!(redact("url rtmp://host/app/k3y ok k3y", "k3y"), "url rtmp://host/app/{REDACTED} ok {REDACTED}");
    assert_eq!(redact("nothing here", "k3y"), "nothing here");
    assert_eq!(redact("aaa", "aa"), "{REDACTED}a");
    assert_eq!(redact("abc", ""), "abc");
    assert_eq!(redact("é-clé-é", "clé"), "é-{REDACTED}-é");
}

#[test]
fn redaction_never_forms_the_key_again() {
    assert_eq!(redact("RED", "RED"), "***");
    assert_eq!(redact("}aa", "}a"), "***a");
    assert_eq!(redact("x*{y", "*{"), "x###y");
    assert_eq!(redact("a{*#b", "{*#"), "");
    for (text, key) in [("RED", "RED"), ("}aa", "}a"), ("x*{y*{", "*{"), ("**#**#", "*#")] {
        assert!(!redact(text, key).contains(key));
    }
}

#[test]
fn log_board_keeps_changed_lines() {
    let mut board = LogBoard::new("key".to_string());
    let shown = board.send_log_buffer(1, b"  frame=1 key=key\nmore  ", 80);
    assert_eq!(shown, Some("frame=1 {REDACTED}={REDACTED}\nmore".to_string()));
    assert_eq!(board.buffers()[1], "  frame=1 {REDACTED}={REDACTED}");
    assert!(board.buffers()[0].is_empty());
    let again = board.send_log_buffer(1, b"abc", 80);
    assert!(again.is_some());
    assert_eq!(board.send_log_buffer(1, b"abc", 80), None);
    assert_eq!(board.send_log_buffer(2, b"abcdef", 3), Some("abcdef".to_string()));
    assert_eq!(board.buffers()[2], "abc");
    assert_eq!(board.send_log_buffer(2, b"abcxyz", 3), None);
}

#[test]
fn status_line_is_cut_after_redaction() {
    let mut board = LogBoard::new("secret".to_string());
    board.send_log_buffer(0, b"xx secret", 5);
    assert_eq!(board.buffers()[0], "xx {R");
    assert!(!board.buffers()[0].contains("sec"));
}

#[test]
fn logged_text_is_trimmed_of_unicode_white_space() {
    let mut board = LogBoard::new("key".to_string());
    let shown = board.send_log_buffer(0, "\u{3000}\thi key\u{a0}\n".as_bytes(), 80);
    assert_eq!(shown, Some("hi {REDACTED}".to_string()));
}

#[test]
fn tts_client_settings() {
    let t = TTS::new(Languages::English, None);
    assert_eq!(t.tld, "com");
    assert_eq!(t.language, Languages::English);
    let t = TTS::new(Languages::Japanese, Some("co.jp"));
    assert_eq!(t.tld, "co.jp");
    assert_eq!(Languages::Japanese.as_code(), "ja");
}

#[test]
fn tts_request_url() {
    let t = TTS::new(Languages::English, None);
    let url = String::from_utf8(t.request_url("Hi there!").unwrap()).unwrap();
    assert_eq!(
        url,
        "https://translate.google.com/translate_tts?ie=UTF-8&q=Hi%20there%21&tl=en&total=1&idx=0&textlen=9&tl=en&client=tw-ob"
    );
    let long = "x".repeat(101);
    assert_eq!(t.request_url(&long), Err("The text is too long. Max length is 100".to_string()));
    assert!(t.request_url(&"x".repeat(100)).is_ok());
}

#[test]
fn url_pieces() {
    let mut out = Vec::new();
    push_percent_encoded(&mut out, "a-b_c.d~e é/".as_bytes());
    assert_eq!(out, b"a-b_c.d~e%20%C3%A9%2F".to_vec());
    let mut out = Vec::new();
    push_decimal(&mut out, 0);
    push_decimal(&mut out, 1907);
    assert_eq!(out, b"01907".to_vec());
}

#[test]
fn status_lines_are_shown_decoded_and_redacted() {
    let mut board = LogBoard::new("key".to_string());
    let shown = board.send_log_buffer(0, b"url=rtmp://x/key \xff end", 80);
    assert_eq!(shown, Some("url=rtmp://x/{REDACTED} \u{FFFD} end".to_string()));
    assert_eq!(board.buffers()[0], "url=rtmp://x/{REDACTED} \u{FFFD} end");
    assert_eq!(board.buffers()[1], "");
    let shown = board.send_log_buffer(2, b"\xffkey", 80);
    assert_eq!(shown, Some("\u{FFFD}{REDACTED}".to_string()));
}

#[test]
fn remaining_error_messages() {
    assert_eq!(
        EbookError::NoTwitchStreamKey.message(),
        "No Twitch stream key in environment variables.\nTry TWITCH_STREAM_KEY={YOUR_STREAM_KEY}"
    );
    assert_eq!(EbookError::PipelineBroken.message(), "An encoder closed its pipe");
}
