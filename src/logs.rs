//! The log board: the last status line of each encoder process, kept for a
//! terminal display, and the redaction of the stream key from every text
//! that is shown.

use vstd::prelude::*;
use vstd::string::*;

verus! {

/// Number of status lines on the board, one per stream.
pub const MAX_BUFFERS: usize = 3;

/// What stands in a shown text in place of the stream key.
pub const REDACTED: &'static str = "{REDACTED}";

/// Stands in place of a key that shares a character with `REDACTED`.
pub const STARS: &'static str = "***";

/// Stands in place of a key that shares a character with `REDACTED` and
/// holds a `*`.
pub const HASHES: &'static str = "###";

/// Whether `k` occurs somewhere in `s`.
pub open spec fn occurs_in(s: Seq<char>, k: Seq<char>) -> bool {
    exists|i: int| 0 <= i && i + k.len() <= s.len() && #[trigger] s.subrange(i, i + k.len()) == k
}

/// A shown text hides the key when a non-empty key does not occur in it.
pub open spec fn hides(s: Seq<char>, k: Seq<char>) -> bool {
    k.len() > 0 ==> !occurs_in(s, k)
}

/// No character of `p` is a character of `k`.
pub open spec fn shares_no_char(p: Seq<char>, k: Seq<char>) -> bool {
    forall|i: int, j: int| 0 <= i < p.len() && 0 <= j < k.len() ==> p[i] != k[j]
}

/// Whether `p` may stand in place of `k`: a placeholder that shares no
/// character with the key cannot form the key again with its neighbours.
pub open spec fn usable_mark(p: Seq<char>, k: Seq<char>) -> bool {
    p.len() > 0 && shares_no_char(p, k)
}

/// `m` with each occurrence of `k`, taken from left to right without
/// overlap, replaced by `p`.
pub open spec fn replaced(m: Seq<char>, k: Seq<char>, p: Seq<char>) -> Seq<char>
    decreases m.len(),
{
    if m.len() == 0 || k.len() == 0 {
        m
    } else if k.len() <= m.len() && m.subrange(0, k.len() as int) == k {
        p + replaced(m.subrange(k.len() as int, m.len() as int), k, p)
    } else {
        seq![m[0]] + replaced(m.drop_first(), k, p)
    }
}

/// `m` with the stream key `k` hidden. An empty key hides nothing. Each
/// occurrence of a key is replaced by the first of `REDACTED`, `STARS` and
/// `HASHES` that shares no character with it; a key that shares a character
/// with all three withholds the whole text.
pub open spec fn redacted(m: Seq<char>, k: Seq<char>) -> Seq<char> {
    if k.len() == 0 {
        m
    } else if usable_mark(REDACTED@, k) {
        replaced(m, k, REDACTED@)
    } else if usable_mark(STARS@, k) {
        replaced(m, k, STARS@)
    } else if usable_mark(HASHES@, k) {
        replaced(m, k, HASHES@)
    } else {
        Seq::empty()
    }
}

/// Before the first character of a replacement, the text is unchanged.
proof fn lemma_replaced_prefix(m: Seq<char>, k: Seq<char>, p: Seq<char>, t: int)
    requires
        k.len() > 0,
        usable_mark(p, k),
        0 <= t <= replaced(m, k, p).len(),
        forall|j: int| 0 <= j < t ==> k.contains(#[trigger] replaced(m, k, p)[j]),
    ensures
        t <= m.len(),
        replaced(m, k, p).subrange(0, t) == m.subrange(0, t),
    decreases m.len(),
{
    let out = replaced(m, k, p);
    if t == 0 {
        assert(out.subrange(0, 0) =~= m.subrange(0, 0));
    } else if m.len() == 0 {
    } else if k.len() <= m.len() && m.subrange(0, k.len() as int) == k {
        assert(out[0] == p[0]);
        assert(k.contains(out[0]));
        let j = choose|j: int| 0 <= j < k.len() && k[j] == out[0];
        assert(p[0] != k[j]);
    } else {
        let rest = m.drop_first();
        let r = replaced(rest, k, p);
        assert(out == seq![m[0]] + r);
        assert forall|j: int| 0 <= j < t - 1 implies k.contains(#[trigger] r[j]) by {
            assert(r[j] == out[j + 1]);
        }
        lemma_replaced_prefix(rest, k, p, t - 1);
        assert(out.subrange(0, t) =~= seq![m[0]] + r.subrange(0, t - 1));
        assert(m.subrange(0, t) =~= seq![m[0]] + rest.subrange(0, t - 1));
    }
}

/// No occurrence of the key survives a replacement by a usable mark.
proof fn lemma_replaced_hides(m: Seq<char>, k: Seq<char>, p: Seq<char>)
    requires
        k.len() > 0,
        usable_mark(p, k),
    ensures
        !occurs_in(replaced(m, k, p), k),
    decreases m.len(),
{
    let out = replaced(m, k, p);
    let kl = k.len() as int;
    if m.len() == 0 {
        if occurs_in(out, k) {
            let i = choose|i: int| 0 <= i && i + kl <= out.len() && #[trigger] out.subrange(i, i + kl) == k;
        }
    } else if kl <= m.len() && m.subrange(0, kl) == k {
        let rest = m.subrange(kl, m.len() as int);
        let r = replaced(rest, k, p);
        lemma_replaced_hides(rest, k, p);
        assert(out == p + r);
        if occurs_in(out, k) {
            let i = choose|i: int| 0 <= i && i + kl <= out.len() && #[trigger] out.subrange(i, i + kl) == k;
            if i < p.len() {
                assert(out.subrange(i, i + kl)[0] == out[i]);
                assert(out[i] == p[i]);
                assert(p[i] != k[0]);
            } else {
                let i2 = i - p.len();
                assert(r.subrange(i2, i2 + kl) =~= out.subrange(i, i + kl));
            }
        }
    } else {
        let rest = m.drop_first();
        let r = replaced(rest, k, p);
        lemma_replaced_hides(rest, k, p);
        assert(out == seq![m[0]] + r);
        if occurs_in(out, k) {
            let i = choose|i: int| 0 <= i && i + kl <= out.len() && #[trigger] out.subrange(i, i + kl) == k;
            if i == 0 {
                assert forall|j: int| 0 <= j < kl implies k.contains(#[trigger] out[j]) by {
                    assert(out.subrange(0, kl)[j] == out[j]);
                }
                lemma_replaced_prefix(m, k, p, kl);
            } else {
                assert(r.subrange(i - 1, i - 1 + kl) =~= out.subrange(i, i + kl));
            }
        }
    }
}

/// A text that hides the key keeps it hidden when cut.
proof fn lemma_prefix_hides(s: Seq<char>, k: Seq<char>, t: int)
    requires
        hides(s, k),
        0 <= t <= s.len(),
    ensures
        hides(s.subrange(0, t), k),
{
    let c = s.subrange(0, t);
    let kl = k.len() as int;
    if kl > 0 && occurs_in(c, k) {
        let i = choose|i: int| 0 <= i && i + kl <= c.len() && #[trigger] c.subrange(i, i + kl) == k;
        assert(s.subrange(i, i + kl) =~= c.subrange(i, i + kl));
    }
}

/// The characters of `s`, one by one.
fn chars_of(s: &str) -> (r: Vec<char>)
    ensures
        r@ == s@,
{
    let n = s.unicode_len();
    let mut v: Vec<char> = Vec::new();
    let mut i: usize = 0;
    while i < n
        invariant
            i <= n,
            n == s@.len(),
            v@ == s@.subrange(0, i as int),
        decreases n - i,
    {
        v.push(s.get_char(i));
        i = i + 1;
        assert(v@ =~= s@.subrange(0, i as int));
    }
    assert(v@ =~= s@);
    v
}

/// Whether `k` occurs in `m` at character `i`.
fn occurs_at(m: &Vec<char>, k: &Vec<char>, i: usize) -> (r: bool)
    requires
        i <= m@.len(),
    ensures
        r == (i + k@.len() <= m@.len() && m@.subrange(i as int, i + k@.len()) == k@),
{
    if k.len() > m.len() - i {
        return false;
    }
    let mut j: usize = 0;
    while j < k.len()
        invariant
            j <= k@.len(),
            i + k@.len() <= m@.len(),
            m@.subrange(i as int, i + j) == k@.subrange(0, j as int),
        decreases k@.len() - j,
    {
        assert(i + j < m.len());
        if m[i + j] != k[j] {
            assert(m@.subrange(i as int, i + k@.len())[j as int] != k@[j as int]);
            return false;
        }
        j = j + 1;
        assert(m@.subrange(i as int, i + j) =~= k@.subrange(0, j as int));
    }
    assert(k@.subrange(0, j as int) =~= k@);
    true
}

/// Whether `p` shares no character with `k` and is not empty.
fn is_usable_mark(p: &str, k: &Vec<char>) -> (r: bool)
    ensures
        r == usable_mark(p@, k@),
{
    let pc = chars_of(p);
    if pc.len() == 0 {
        return false;
    }
    let mut i: usize = 0;
    while i < pc.len()
        invariant
            i <= pc@.len(),
            pc@ == p@,
            forall|a: int, b: int| 0 <= a < i && 0 <= b < k@.len() ==> pc@[a] != k@[b],
        decreases pc@.len() - i,
    {
        let mut j: usize = 0;
        while j < k.len()
            invariant
                i < pc@.len(),
                pc@ == p@,
                j <= k@.len(),
                forall|b: int| 0 <= b < j ==> pc@[i as int] != k@[b],
            decreases k@.len() - j,
        {
            if pc[i] == k[j] {
                assert(p@[i as int] == k@[j as int]);
                return false;
            }
            j = j + 1;
        }
        i = i + 1;
    }
    true
}

proof fn lemma_replaced_step(m: Seq<char>, k: Seq<char>, p: Seq<char>, i: int)
    requires
        0 <= i < m.len(),
        k.len() > 0,
    ensures
        ({
            let rest = m.subrange(i, m.len() as int);
            if i + k.len() <= m.len() && m.subrange(i, i + k.len()) == k {
                replaced(rest, k, p) == p + replaced(m.subrange(i + k.len(), m.len() as int), k, p)
            } else {
                replaced(rest, k, p) == seq![m[i]] + replaced(
                    m.subrange(i + 1, m.len() as int),
                    k,
                    p,
                )
            }
        }),
{
    let rest = m.subrange(i, m.len() as int);
    if i + k.len() <= m.len() {
        assert(rest.subrange(0, k.len() as int) =~= m.subrange(i, i + k.len()));
        assert(rest.subrange(k.len() as int, rest.len() as int) =~= m.subrange(
            i + k.len(),
            m.len() as int,
        ));
    } else {
        assert(!(k.len() <= rest.len()));
    }
    assert(rest.drop_first() =~= m.subrange(i + 1, m.len() as int));
}

/// `msg` with each occurrence of `key` replaced by `mark`.
fn replace_all(msg: &str, key: &Vec<char>, mark: &str) -> (r: String)
    requires
        key@.len() > 0,
    ensures
        r@ == replaced(msg@, key@, mark@),
{
    let m = chars_of(msg);
    let n = m.len();
    let mut out = String::new();
    let mut start: usize = 0;
    let mut i: usize = 0;
    assert(msg@.subrange(0, n as int) =~= msg@);
    while i < n
        invariant
            start <= i <= n,
            n == msg@.len(),
            m@ == msg@,
            key@.len() > 0,
            out@ + msg@.subrange(start as int, i as int) + replaced(
                msg@.subrange(i as int, n as int),
                key@,
                mark@,
            ) == replaced(msg@, key@, mark@),
        decreases n - i,
    {
        proof {
            lemma_replaced_step(msg@, key@, mark@, i as int);
        }
        if occurs_at(&m, key, i) {
            let ghost before = out@ + msg@.subrange(start as int, i as int);
            out.append(msg.substring_char(start, i));
            out.append(mark);
            i = i + key.len();
            start = i;
            assert(msg@.subrange(start as int, i as int) =~= Seq::<char>::empty());
            assert(out@ =~= before + mark@);
        } else {
            assert(msg@.subrange(start as int, i + 1) =~= msg@.subrange(start as int, i as int)
                + seq![msg@[i as int]]);
            i = i + 1;
        }
    }
    out.append(msg.substring_char(start, n));
    assert(msg@.subrange(n as int, n as int) =~= Seq::<char>::empty());
    out
}

/// `msg` with the stream key `key` hidden: no occurrence of a non-empty key
/// is left in the result.
pub fn redact(msg: &str, key: &str) -> (r: String)
    ensures
        r@ == redacted(msg@, key@),
        hides(r@, key@),
{
    let k = chars_of(key);
    if k.len() == 0 {
        return String::from_str(msg);
    }
    let mark = if is_usable_mark(REDACTED, &k) {
        REDACTED
    } else if is_usable_mark(STARS, &k) {
        STARS
    } else if is_usable_mark(HASHES, &k) {
        HASHES
    } else {
        return String::new();
    };
    let r = replace_all(msg, &k, mark);
    proof {
        lemma_replaced_hides(msg@, key@, mark@);
    }
    r
}

/// The text that `String::from_utf8_lossy` makes of `b`.
pub uninterp spec fn lossy_text(b: Seq<u8>) -> Seq<char>;

/// Relies on `String::from_utf8_lossy`: decodes UTF-8, putting U+FFFD in
/// place of each invalid sequence; the text depends on the bytes alone.
#[verifier::external_body]
fn utf8_lossy(b: &[u8]) -> (r: String)
    ensures
        r@ == lossy_text(b@),
{
    String::from_utf8_lossy(b).into_owned()
}

/// Unicode's White_Space characters.
pub open spec fn is_white_space(c: char) -> bool {
    ('\u{9}' <= c <= '\u{d}') || c == ' ' || c == '\u{85}' || c == '\u{a0}' || c == '\u{1680}'
        || ('\u{2000}' <= c <= '\u{200a}') || c == '\u{2028}' || c == '\u{2029}' || c
        == '\u{202f}' || c == '\u{205f}' || c == '\u{3000}'
}

/// `s` without its leading white space.
pub open spec fn trim_start(s: Seq<char>) -> Seq<char>
    decreases s.len(),
{
    if s.len() > 0 && is_white_space(s[0]) {
        trim_start(s.drop_first())
    } else {
        s
    }
}

/// `s` without its trailing white space.
pub open spec fn trim_end(s: Seq<char>) -> Seq<char>
    decreases s.len(),
{
    if s.len() > 0 && is_white_space(s.last()) {
        trim_end(s.drop_last())
    } else {
        s
    }
}

/// `s` without its leading and trailing white space.
pub open spec fn trimmed(s: Seq<char>) -> Seq<char> {
    trim_end(trim_start(s))
}

/// Relies on `str::trim`: drops the leading and trailing characters that
/// have Unicode's White_Space property.
#[verifier::external_body]
fn trim_text(s: &str) -> (r: String)
    ensures
        r@ == trimmed(s@),
{
    s.trim().to_string()
}

/// The part of `t` that fits on a terminal line of `width` columns.
pub open spec fn fitting(t: Seq<char>, width: nat) -> Seq<char> {
    if width < t.len() {
        t.subrange(0, width as int)
    } else {
        t
    }
}

/// `t` up to its first line feed.
pub open spec fn first_line(t: Seq<char>) -> Seq<char>
    decreases t.len(),
{
    if t.len() == 0 || t[0] == '\n' {
        Seq::empty()
    } else {
        seq![t[0]] + first_line(t.drop_first())
    }
}

proof fn lemma_first_line(t: Seq<char>, i: int)
    requires
        0 <= i <= t.len(),
        forall|j: int| 0 <= j < i ==> t[j] != '\n',
        i == t.len() || t[i] == '\n',
    ensures
        first_line(t) == t.subrange(0, i),
    decreases i,
{
    if i == 0 {
        assert(t.subrange(0, 0) =~= Seq::<char>::empty());
    } else {
        lemma_first_line(t.drop_first(), i - 1);
        assert(t.subrange(0, i) =~= seq![t[0]] + t.drop_first().subrange(0, i - 1));
    }
}

/// The status line for what a stream printed: the text decoded, the key
/// hidden, then cut at the first line feed and at the terminal's width.
pub open spec fn status_line(buf: Seq<u8>, key: Seq<char>, width: nat) -> Seq<char> {
    fitting(first_line(redacted(lossy_text(buf), key)), width)
}

/// The text of each line.
pub open spec fn lines_of(v: Seq<String>) -> Seq<Seq<char>> {
    Seq::new(v.len(), |i: int| v[i]@)
}

/// The last status line of each of the `MAX_BUFFERS` streams, with the
/// stream key hidden.
pub struct LogBoard {
    stream_key: String,
    lines: Vec<String>,
}

impl View for LogBoard {
    type V = Seq<Seq<char>>;

    closed spec fn view(&self) -> Seq<Seq<char>> {
        lines_of(self.lines@)
    }
}

impl LogBoard {
    /// The key that no shown text may hold.
    pub closed spec fn key(&self) -> Seq<char> {
        self.stream_key@
    }

    /// One line per stream, and none holds the key.
    pub open spec fn wf(&self) -> bool {
        &&& self@.len() == MAX_BUFFERS
        &&& forall|i: int| 0 <= i < self@.len() ==> hides(#[trigger] self@[i], self.key())
    }

    /// A board of empty lines that hides `stream_key`.
    pub fn new(stream_key: String) -> (r: Self)
        ensures
            r.wf(),
            r.key() == stream_key@,
            forall|i: int| 0 <= i < MAX_BUFFERS ==> r@[i].len() == 0,
    {
        let lines: Vec<String> = vec![String::new(), String::new(), String::new()];
        let r = LogBoard { stream_key, lines };
        assert forall|i: int| 0 <= i < r@.len() implies hides(#[trigger] r@[i], r.key()) by {
            if r.key().len() > 0 && occurs_in(r@[i], r.key()) {
                let j = choose|j: int| 0 <= j && j + r.key().len() <= r@[i].len()
                    && #[trigger] r@[i].subrange(j, j + r.key().len()) == r.key();
            }
        }
        r
    }

    /// The status lines, one per stream.
    pub fn buffers(&self) -> (r: &Vec<String>)
        ensures
            lines_of(r@) == self@,
    {
        &self.lines
    }

    /// Takes what stream `buffer_idx` printed. When its status line (see
    /// `status_line`) differs from the one on the board, it takes that
    /// place, and the result is the text to log: `buf` decoded and trimmed,
    /// with the key hidden. Otherwise nothing changes and there is nothing
    /// to log.
    pub fn send_log_buffer(&mut self, buffer_idx: usize, buf: &[u8], term_width: u16) -> (r: Option<
        String,
    >)
        requires
            old(self).wf(),
            buffer_idx < MAX_BUFFERS,
        ensures
            final(self).wf(),
            final(self).key() == old(self).key(),
            ({
                let line = status_line(buf@, old(self).key(), term_width as nat);
                if old(self)@[buffer_idx as int] == line {
                    r is None && final(self)@ == old(self)@
                } else {
                    &&& r is Some
                    &&& r->Some_0@ == redacted(trimmed(lossy_text(buf@)), old(self).key())
                    &&& hides(r->Some_0@, old(self).key())
                    &&& final(self)@ == old(self)@.update(buffer_idx as int, line)
                }
            }),
    {
        let text = utf8_lossy(buf);
        let shown = redact(text.as_str(), self.stream_key.as_str());
        let chars = chars_of(shown.as_str());
        let width = term_width as usize;
        let mut cut: usize = 0;
        while cut < chars.len() && chars[cut] != '\n'
            invariant
                cut <= chars@.len(),
                forall|j: int| 0 <= j < cut ==> chars@[j] != '\n',
            decreases chars@.len() - cut,
        {
            cut = cut + 1;
        }
        proof {
            lemma_first_line(shown@, cut as int);
        }
        let end = if width < cut {
            width
        } else {
            cut
        };
        let line = String::from_str(shown.as_str().substring_char(0, end));
        assert(line@ == status_line(buf@, self.key(), term_width as nat));
        if self.lines[buffer_idx] == line {
            assert(self@[buffer_idx as int] == line@);
            return None;
        }
        let trimmed_text = trim_text(text.as_str());
        let msg = redact(trimmed_text.as_str(), self.stream_key.as_str());
        proof {
            lemma_prefix_hides(shown@, self.key(), end as int);
        }
        let ghost before = self@;
        self.lines.set(buffer_idx, line);
        assert(self@ =~= before.update(buffer_idx as int, line@));
        assert forall|i: int| 0 <= i < self@.len() implies hides(#[trigger] self@[i], self.key()) by {
            if i != buffer_idx {
                assert(self@[i] == before[i]);
            }
        }
        Some(msg)
    }
}

} // verus!
