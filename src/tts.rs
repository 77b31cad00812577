//! Text-to-speech requests: the client's settings and the request URL for a
//! text. Sending the request and decoding the answer are left to the caller.

use vstd::prelude::*;
use vstd::string::*;

verus! {

/// Longest text, in bytes, that one request may carry.
pub const GOOGLE_TTS_MAX_CHARS: usize = 100;

/// Sent as the `referer` header of a request.
pub const REFERER: &'static str = "http://translate.google.com/";

/// Sent as the `user_agent` header of a request.
pub const USER_AGENT: &'static str = "Mozilla/5.0 (Windows NT 10.0; WOW64) AppleWebKit/537.36 (KHTML, like Gecko) Chrome/47.0.2526.106 Safari/537.36";

pub const URL_HEAD: &'static str = "https://translate.google.";
pub const URL_QUERY: &'static str = "/translate_tts?ie=UTF-8&q=";
pub const URL_LANG: &'static str = "&tl=";
pub const URL_COUNTERS: &'static str = "&total=1&idx=0&textlen=";
pub const URL_CLIENT: &'static str = "&client=tw-ob";

/// A spoken language.
#[derive(Clone, Copy, Debug, PartialEq, Eq, Structural)]
pub enum Languages {
    English,
    Japanese,
}

pub open spec fn language_code(l: Languages) -> &'static str {
    match l {
        Languages::English => "en",
        Languages::Japanese => "ja",
    }
}

impl Languages {
    /// The language's ISO code.
    pub fn as_code(self) -> (r: &'static str)
        ensures
            r == language_code(self),
    {
        match self {
            Languages::English => "en",
            Languages::Japanese => "ja",
        }
    }
}

/// A text-to-speech client.
pub struct TTS {
    /// The language of the speech, for example `Languages::English`.
    pub language: Languages,
    /// Top-level domain of the service, for example `"com"`.
    pub tld: &'static str,
}

impl TTS {
    /// A client for `language`; the domain is `com` unless given.
    pub fn new(language: Languages, tld: Option<&'static str>) -> (r: Self)
        ensures
            r.language == language,
            r.tld == (match tld {
                Some(t) => t,
                None => "com",
            }),
    {
        TTS {
            language,
            tld: match tld {
                Some(t) => t,
                None => "com",
            },
        }
    }
}

/// Bytes that stand for themselves in a URL query.
pub open spec fn is_unreserved(b: u8) -> bool {
    (65 <= b <= 90) || (97 <= b <= 122) || (48 <= b <= 57) || b == 45 || b == 46 || b == 95 || b
        == 126
}

/// The upper-case hexadecimal digit of `d`, below 16.
pub open spec fn hex_digit(d: u8) -> u8 {
    if d < 10 {
        (48 + d) as u8
    } else {
        (55 + d) as u8
    }
}

/// How one byte is written in a URL query.
pub open spec fn encoded_byte(b: u8) -> Seq<u8> {
    if is_unreserved(b) {
        seq![b]
    } else {
        seq![37u8, hex_digit(b / 16), hex_digit(b % 16)]
    }
}

/// `s` percent-encoded: each byte that is not unreserved becomes `%` and two
/// upper-case hexadecimal digits.
pub open spec fn percent_encoded(s: Seq<u8>) -> Seq<u8>
    decreases s.len(),
{
    if s.len() == 0 {
        Seq::empty()
    } else {
        percent_encoded(s.drop_last()) + encoded_byte(s.last())
    }
}

/// The decimal digits of `n`.
pub open spec fn decimal(n: nat) -> Seq<u8>
    decreases n,
{
    if n < 10 {
        seq![(48 + n) as u8]
    } else {
        decimal(n / 10) + seq![(48 + n % 10) as u8]
    }
}

fn push_hex_digit(out: &mut Vec<u8>, d: u8)
    requires
        d < 16,
    ensures
        final(out)@ == old(out)@.push(hex_digit(d)),
{
    if d < 10 {
        out.push(48 + d);
    } else {
        out.push(55 + d);
    }
}

/// Appends `s` percent-encoded to `out`.
pub fn push_percent_encoded(out: &mut Vec<u8>, s: &[u8])
    ensures
        final(out)@ == old(out)@ + percent_encoded(s@),
{
    let mut i: usize = 0;
    let ghost start = out@;
    while i < s.len()
        invariant
            i <= s@.len(),
            out@ == start + percent_encoded(s@.subrange(0, i as int)),
        decreases s@.len() - i,
    {
        let b = s[i];
        let ghost before = out@;
        if (65 <= b && b <= 90) || (97 <= b && b <= 122) || (48 <= b && b <= 57) || b == 45 || b == 46
            || b == 95 || b == 126 {
            out.push(b);
        } else {
            out.push(37u8);
            push_hex_digit(out, b / 16);
            push_hex_digit(out, b % 16);
        }
        assert(out@ =~= before + encoded_byte(b));
        assert(s@.subrange(0, i + 1).drop_last() =~= s@.subrange(0, i as int));
        i = i + 1;
    }
    assert(s@.subrange(0, i as int) =~= s@);
}

/// Appends the decimal digits of `n` to `out`.
pub fn push_decimal(out: &mut Vec<u8>, n: usize)
    ensures
        final(out)@ == old(out)@ + decimal(n as nat),
    decreases n,
{
    if n >= 10 {
        push_decimal(out, n / 10);
    }
    out.push(48 + (n % 10) as u8);
    assert(out@ =~= old(out)@ + decimal(n as nat));
}

fn push_str(out: &mut Vec<u8>, s: &str)
    ensures
        final(out)@ == old(out)@ + s.spec_bytes(),
{
    let b = s.as_bytes();
    let mut i: usize = 0;
    let ghost start = out@;
    while i < b.len()
        invariant
            i <= b@.len(),
            b@ == s.spec_bytes(),
            out@ == start + b@.subrange(0, i as int),
        decreases b@.len() - i,
    {
        out.push(b[i]);
        i = i + 1;
        assert(out@ =~= start + b@.subrange(0, i as int));
    }
    assert(b@.subrange(0, i as int) =~= b@);
}

/// The request URL for `text` spoken in language `lang` through domain `tld`.
pub open spec fn request_url_bytes(tld: &str, lang: &str, text: &str) -> Seq<u8> {
    URL_HEAD.spec_bytes() + tld.spec_bytes() + URL_QUERY.spec_bytes() + percent_encoded(
        text.spec_bytes(),
    ) + URL_LANG.spec_bytes() + lang.spec_bytes() + URL_COUNTERS.spec_bytes() + decimal(
        text.spec_bytes().len(),
    ) + URL_LANG.spec_bytes() + lang.spec_bytes() + URL_CLIENT.spec_bytes()
}

/// Why no request can be made for a text.
pub open spec fn too_long_text() -> Seq<char> {
    "The text is too long. Max length is 100"@
}

impl TTS {
    /// The bytes of the URL that asks for `text` to be spoken; an error when
    /// the text is longer than `GOOGLE_TTS_MAX_CHARS` bytes.
    pub fn request_url(&self, text: &str) -> (r: Result<Vec<u8>, String>)
        ensures
            text.spec_bytes().len() > GOOGLE_TTS_MAX_CHARS ==> r is Err && r->Err_0@
                == too_long_text(),
            text.spec_bytes().len() <= GOOGLE_TTS_MAX_CHARS ==> r is Ok && r->Ok_0@
                == request_url_bytes(self.tld, language_code(self.language), text),
    {
        let bytes = text.as_bytes();
        let len = bytes.len();
        if len > GOOGLE_TTS_MAX_CHARS {
            return Err(String::from_str("The text is too long. Max length is 100"));
        }
        let lang = self.language.as_code();
        let mut url: Vec<u8> = Vec::new();
        push_str(&mut url, URL_HEAD);
        push_str(&mut url, self.tld);
        push_str(&mut url, URL_QUERY);
        push_percent_encoded(&mut url, bytes);
        push_str(&mut url, URL_LANG);
        push_str(&mut url, lang);
        push_str(&mut url, URL_COUNTERS);
        push_decimal(&mut url, len);
        push_str(&mut url, URL_LANG);
        push_str(&mut url, lang);
        push_str(&mut url, URL_CLIENT);
        Ok(url)
    }
}

} // verus!
