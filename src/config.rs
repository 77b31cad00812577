//! The session's configuration, built from what the environment held, and
//! the library's error type.

use vstd::prelude::*;
use vstd::string::*;

verus! {

pub const STREAM_KEY_NAME: &'static str = "TWITCH_STREAM_KEY";
pub const PREVIEW_NAME: &'static str = "PREVIEW";
pub const LOG_FILE_NAME: &'static str = "LOG_FILE";

pub const RST: &'static str = "\x1b[0m";
pub const RED: &'static str = "\x1b[1;31m";
pub const GREEN: &'static str = "\x1b[1;32m";
pub const YELLOW: &'static str = "\x1b[1;33m";

/// What the environment held for one variable.
#[derive(Clone, Debug, PartialEq, Eq)]
pub enum EnvVar {
    Present(String),
    NotPresent,
    /// Set, but not valid Unicode.
    NotUnicode,
}

#[derive(Clone, Debug, PartialEq, Eq)]
pub enum EbookError {
    /// The variable of this name is set but not valid Unicode.
    InvalidEnvEncoding(&'static str),
    NoTwitchStreamKey,
    LoggerAlreadyInitialized,
    /// A pipe or an encoder process could not be set up; names the resource.
    Setup(String),
    /// An encoder closed its end of a pipe in the middle of the session.
    PipelineBroken,
}

pub type EbookResult<T> = Result<T, EbookError>;

/// The text of an error, as shown to the user.
pub open spec fn error_text(e: EbookError) -> Seq<char> {
    match e {
        EbookError::InvalidEnvEncoding(key) => "Cannot get environment variable "@ + key@
            + ".\nIt was found but is not encoded correctly"@,
        EbookError::NoTwitchStreamKey =>
            "No Twitch stream key in environment variables.\nTry TWITCH_STREAM_KEY={YOUR_STREAM_KEY}"@,
        EbookError::LoggerAlreadyInitialized => "Logger was already initialized"@,
        EbookError::Setup(what) => "Cannot set up "@ + what@,
        EbookError::PipelineBroken => "An encoder closed its pipe"@,
    }
}

impl EbookError {
    /// The text of the error.
    pub fn message(&self) -> (r: String)
        ensures
            r@ == error_text(*self),
    {
        match self {
            EbookError::InvalidEnvEncoding(key) => {
                let mut s = String::from_str("Cannot get environment variable ");
                s.append(key);
                s.append(".\nIt was found but is not encoded correctly");
                s
            },
            EbookError::NoTwitchStreamKey => String::from_str(
                "No Twitch stream key in environment variables.\nTry TWITCH_STREAM_KEY={YOUR_STREAM_KEY}",
            ),
            EbookError::LoggerAlreadyInitialized => String::from_str(
                "Logger was already initialized",
            ),
            EbookError::Setup(what) => {
                let mut s = String::from_str("Cannot set up ");
                s.append(what.as_str());
                s
            },
            EbookError::PipelineBroken => String::from_str("An encoder closed its pipe"),
        }
    }
}

/// What `load_env` gives for a variable named `key`.
pub open spec fn env_result(key: &'static str, var: EnvVar) -> Result<Option<String>, EbookError> {
    match var {
        EnvVar::Present(v) => Ok(Some(v)),
        EnvVar::NotPresent => Ok(None),
        EnvVar::NotUnicode => Err(EbookError::InvalidEnvEncoding(key)),
    }
}

/// A set variable, as a value that may be absent; an error when it is not
/// valid Unicode.
pub fn load_env(key: &'static str, var: EnvVar) -> (r: EbookResult<Option<String>>)
    ensures
        r == env_result(key, var),
{
    match var {
        EnvVar::Present(v) => Ok(Some(v)),
        EnvVar::NotPresent => Ok(None),
        EnvVar::NotUnicode => Err(EbookError::InvalidEnvEncoding(key)),
    }
}

/// A flag is off when its value is `0` or `false`, and on for any other value.
pub open spec fn flag_on(v: Seq<char>) -> bool {
    v != seq!['0'] && v != seq!['f', 'a', 'l', 's', 'e']
}

/// Reads a flag's value.
pub fn parse_flag(v: &str) -> (r: bool)
    ensures
        r == flag_on(v@),
{
    let n = v.unicode_len();
    if n == 1 {
        let c = v.get_char(0);
        if c == '0' {
            assert(v@ =~= seq!['0']);
        }
        c != '0'
    } else if n == 5 {
        let off = v.get_char(0) == 'f' && v.get_char(1) == 'a' && v.get_char(2) == 'l'
            && v.get_char(3) == 's' && v.get_char(4) == 'e';
        if off {
            assert(v@ =~= seq!['f', 'a', 'l', 's', 'e']);
        } else {
            assert(v@ != seq!['f', 'a', 'l', 's', 'e']) by {
                if v@ == seq!['f', 'a', 'l', 's', 'e'] {
                    assert(v@[0] == 'f' && v@[1] == 'a' && v@[2] == 'l' && v@[3] == 's' && v@[4]
                        == 'e');
                }
            }
        }
        !off
    } else {
        true
    }
}

/// What `load_bool` gives for a variable named `key`.
pub open spec fn bool_result(key: &'static str, var: EnvVar) -> Result<Option<bool>, EbookError> {
    match var {
        EnvVar::Present(v) => Ok(Some(flag_on(v@))),
        EnvVar::NotPresent => Ok(None),
        EnvVar::NotUnicode => Err(EbookError::InvalidEnvEncoding(key)),
    }
}

/// A set variable read as a flag.
pub fn load_bool(key: &'static str, var: EnvVar) -> (r: EbookResult<Option<bool>>)
    ensures
        r == bool_result(key, var),
{
    match load_env(key, var) {
        Ok(Some(v)) => Ok(Some(parse_flag(v.as_str()))),
        Ok(None) => Ok(None),
        Err(e) => Err(e),
    }
}

/// The session's settings.
#[derive(Clone, Debug, PartialEq, Eq)]
pub struct EbookConfig {
    /// Secret key of the streaming ingest endpoint.
    pub stream_key: String,
    /// Also play the stream locally.
    pub preview: bool,
    /// File that receives a copy of the log.
    pub log_file: Option<String>,
}

/// The text of a configuration, with the stream key masked: one `*` for
/// each of its characters.
pub open spec fn config_text(key_len: nat, preview: bool, log_file: Option<String>) -> Seq<char> {
    GREEN@ + "Configuration:"@ + RST@ + "\n"@
        + "  "@ + YELLOW@ + "Stream key : "@ + RED@ + Seq::new(key_len, |i: int| '*') + RST@ + "\n"@
        + "  "@ + YELLOW@ + "Preview    : "@ + GREEN@ + (if preview { "true"@ } else { "false"@ })
        + RST@ + "\n"@
        + match log_file {
        Some(f) => "  "@ + YELLOW@ + "Log File   : "@ + GREEN@ + f@ + RST@ + "\n"@,
        None => "  "@ + YELLOW@ + "Log File   : "@ + RED@ + "No"@ + RST@ + "\n"@,
    }
}

impl EbookConfig {
    /// The configuration from the values of `TWITCH_STREAM_KEY`, `PREVIEW`
    /// and `LOG_FILE`. The stream key is required; the preview is off unless
    /// the flag says otherwise.
    pub fn from_envs(stream_key: EnvVar, preview: EnvVar, log_file: EnvVar) -> (r: EbookResult<Self>)
        ensures
            match (env_result(STREAM_KEY_NAME, stream_key), bool_result(PREVIEW_NAME, preview), env_result(LOG_FILE_NAME, log_file)) {
                (Err(e), _, _) => r == Err::<Self, EbookError>(e),
                (Ok(None), _, _) => r == Err::<Self, EbookError>(EbookError::NoTwitchStreamKey),
                (Ok(Some(_)), Err(e), _) => r == Err::<Self, EbookError>(e),
                (Ok(Some(_)), Ok(_), Err(e)) => r == Err::<Self, EbookError>(e),
                (Ok(Some(k)), Ok(p), Ok(f)) => r == Ok::<Self, EbookError>(
                    EbookConfig { stream_key: k, preview: p.unwrap_or(false), log_file: f },
                ),
            },
    {
        let key = match load_env(STREAM_KEY_NAME, stream_key) {
            Ok(Some(k)) => k,
            Ok(None) => return Err(EbookError::NoTwitchStreamKey),
            Err(e) => return Err(e),
        };
        let preview = match load_bool(PREVIEW_NAME, preview) {
            Ok(p) => p.unwrap_or(false),
            Err(e) => return Err(e),
        };
        let log_file = match load_env(LOG_FILE_NAME, log_file) {
            Ok(f) => f,
            Err(e) => return Err(e),
        };
        Ok(EbookConfig { stream_key: key, preview, log_file })
    }

    /// The configuration as shown to the user; the stream key never appears
    /// in it.
    pub fn describe(&self) -> (r: String)
        ensures
            r@ == config_text(self.stream_key@.len(), self.preview, self.log_file),
    {
        let mut s = String::from_str(GREEN);
        s.append("Configuration:");
        s.append(RST);
        s.append("\n");
        s.append("  ");
        s.append(YELLOW);
        s.append("Stream key : ");
        s.append(RED);
        let ghost head = s@;
        let n = self.stream_key.as_str().unicode_len();
        let mut i: usize = 0;
        while i < n
            invariant
                i <= n,
                n == self.stream_key@.len(),
                s@ == head + Seq::new(i as nat, |j: int| '*'),
            decreases n - i,
        {
            s.append("*");
            proof {
                reveal_strlit("*");
            }
            assert(s@ =~= head + Seq::new((i + 1) as nat, |j: int| '*'));
            i = i + 1;
        }
        s.append(RST);
        s.append("\n");
        s.append("  ");
        s.append(YELLOW);
        s.append("Preview    : ");
        s.append(GREEN);
        if self.preview {
            s.append("true");
        } else {
            s.append("false");
        }
        s.append(RST);
        s.append("\n");
        s.append("  ");
        s.append(YELLOW);
        s.append("Log File   : ");
        match &self.log_file {
            Some(f) => {
                s.append(GREEN);
                s.append(f.as_str());
            },
            None => {
                s.append(RED);
                s.append("No");
            },
        }
        s.append(RST);
        s.append("\n");
        assert(s@ =~= config_text(self.stream_key@.len(), self.preview, self.log_file));
        s
    }
}

} // verus!
