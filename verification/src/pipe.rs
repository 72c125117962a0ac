//! Process pipe reader logic: one subprocess output line is decoded,
//! trimmed, stripped of terminal control sequences, and turned into an
//! output event and a log-file line.
//!
//! The blocking read loop itself runs in the embedding program; this module
//! holds the per-line computation.

use vstd::prelude::*;

use crate::util::push_char;

verus! {

/// The escape character that opens a terminal control sequence.
pub open spec fn is_escape_char(c: char) -> bool {
    c as u32 == 0x1b
}

/// A character allowed in the parameter body of a control sequence
/// introducer: digits, `;` and `?`.
pub open spec fn is_csi_body_char(c: char) -> bool {
    (0x30 <= c as u32 && c as u32 <= 0x39) || c as u32 == 0x3b || c as u32 == 0x3f
}

/// A letter that terminates a control sequence introducer.
pub open spec fn is_csi_final_char(c: char) -> bool {
    (0x41 <= c as u32 && c as u32 <= 0x5a) || (0x61 <= c as u32 && c as u32 <= 0x7a)
}

/// The bell character that terminates an operating-system command sequence.
pub open spec fn is_bell_char(c: char) -> bool {
    c as u32 == 0x07
}

/// First position at or after `k` whose character is not a control-sequence
/// body character, or `s.len()` if the body runs to the end.
pub open spec fn csi_body_end(s: Seq<char>, k: int) -> int
    recommends
        0 <= k <= s.len(),
    decreases s.len() - k when 0 <= k <= s.len()
{
    if k >= s.len() {
        s.len() as int
    } else if is_csi_body_char(s[k]) {
        csi_body_end(s, k + 1)
    } else {
        k
    }
}

/// First position at or after `k` holding a bell character, or `s.len()`
/// if there is none.
pub open spec fn osc_body_end(s: Seq<char>, k: int) -> int
    recommends
        0 <= k <= s.len(),
    decreases s.len() - k when 0 <= k <= s.len()
{
    if k >= s.len() {
        s.len() as int
    } else if is_bell_char(s[k]) {
        k
    } else {
        osc_body_end(s, k + 1)
    }
}

/// The suffix of `s` from position `i` with terminal control sequences
/// removed: an escape followed by `[`, a parameter body and a final letter
/// is dropped whole; an escape followed by `]` is dropped together with
/// everything up to and including the next bell (or to the end of the
/// line); every other character is kept.
pub open spec fn strip_from(s: Seq<char>, i: int) -> Seq<char>
    recommends
        0 <= i <= s.len(),
    decreases s.len() - i when 0 <= i <= s.len()
    via strip_from_decreases
{
    if i >= s.len() {
        Seq::<char>::empty()
    } else if is_escape_char(s[i]) && i + 1 < s.len() && s[i + 1] as u32 == 0x5b {
        let j = csi_body_end(s, i + 2);
        if j < s.len() && is_csi_final_char(s[j]) {
            strip_from(s, j + 1)
        } else {
            seq![s[i]].add(strip_from(s, i + 1))
        }
    } else if is_escape_char(s[i]) && i + 1 < s.len() && s[i + 1] as u32 == 0x5d {
        let j = osc_body_end(s, i + 2);
        if j < s.len() {
            strip_from(s, j + 1)
        } else {
            Seq::<char>::empty()
        }
    } else {
        seq![s[i]].add(strip_from(s, i + 1))
    }
}

#[via_fn]
proof fn strip_from_decreases(s: Seq<char>, i: int) {
    if 0 <= i && i + 2 <= s.len() {
        lemma_csi_body_end_range(s, i + 2);
        lemma_osc_body_end_range(s, i + 2);
    }
}

/// A line with all terminal control sequences removed.
pub open spec fn strip_ansi(s: Seq<char>) -> Seq<char> {
    strip_from(s, 0)
}

proof fn lemma_csi_body_end_range(s: Seq<char>, k: int)
    requires
        0 <= k <= s.len(),
    ensures
        k <= csi_body_end(s, k) <= s.len(),
    decreases s.len() - k,
{
    if k < s.len() && is_csi_body_char(s[k]) {
        lemma_csi_body_end_range(s, k + 1);
    }
}

proof fn lemma_osc_body_end_range(s: Seq<char>, k: int)
    requires
        0 <= k <= s.len(),
    ensures
        k <= osc_body_end(s, k) <= s.len(),
    decreases s.len() - k,
{
    if k < s.len() && !is_bell_char(s[k]) {
        lemma_osc_body_end_range(s, k + 1);
    }
}

/// Removes terminal escape sequences (control sequence introducers and
/// operating-system commands) from one line of subprocess output, keeping
/// every other character in order.
pub fn strip_ansi_escapes(s: &str) -> (r: String)
    ensures
        r@ == strip_ansi(s@),
{
    let n = s.unicode_len();
    let mut out = String::new();
    let mut i: usize = 0;
    while i < n
        invariant
            n == s@.len(),
            0 <= i <= n,
            strip_ansi(s@) == out@.add(strip_from(s@, i as int)),
        decreases n - i,
    {
        let ghost kept = out@;
        let c = s.get_char(i);
        if c == '\x1b' && i + 1 < n {
            let next = s.get_char(i + 1);
            if next == '[' {
                // Scan the parameter body.
                let mut k: usize = i + 2;
                while k < n && is_csi_body(s.get_char(k))
                    invariant
                        n == s@.len(),
                        i + 2 <= k <= n,
                        csi_body_end(s@, i + 2) == csi_body_end(s@, k as int),
                    decreases n - k,
                {
                    k = k + 1;
                }
                assert(csi_body_end(s@, i + 2) == k);
                if k < n && is_csi_final(s.get_char(k)) {
                    proof {
                        assert(strip_from(s@, i as int) == strip_from(s@, k + 1));
                    }
                    i = k + 1;
                } else {
                    proof {
                        assert(strip_from(s@, i as int) == seq![s@[i as int]].add(
                            strip_from(s@, i + 1),
                        ));
                        assert(kept.push(c).add(strip_from(s@, i + 1)) =~= kept.add(
                            strip_from(s@, i as int),
                        ));
                    }
                    push_char(&mut out, c);
                    i = i + 1;
                }
            } else if next == ']' {
                let mut k: usize = i + 2;
                while k < n && !is_bell(s.get_char(k))
                    invariant
                        n == s@.len(),
                        i + 2 <= k <= n,
                        osc_body_end(s@, i + 2) == osc_body_end(s@, k as int),
                    decreases n - k,
                {
                    k = k + 1;
                }
                assert(osc_body_end(s@, i + 2) == k);
                if k < n {
                    proof {
                        assert(strip_from(s@, i as int) == strip_from(s@, k + 1));
                    }
                    i = k + 1;
                } else {
                    proof {
                        assert(strip_from(s@, i as int) == Seq::<char>::empty());
                        assert(strip_from(s@, n as int) == Seq::<char>::empty());
                    }
                    i = n;
                }
            } else {
                proof {
                    assert(strip_from(s@, i as int) == seq![s@[i as int]].add(
                        strip_from(s@, i + 1),
                    ));
                    assert(kept.push(c).add(strip_from(s@, i + 1)) =~= kept.add(
                        strip_from(s@, i as int),
                    ));
                }
                push_char(&mut out, c);
                i = i + 1;
            }
        } else {
            proof {
                assert(strip_from(s@, i as int) == seq![s@[i as int]].add(strip_from(s@, i + 1)));
                assert(kept.push(c).add(strip_from(s@, i + 1)) =~= kept.add(
                    strip_from(s@, i as int),
                ));
            }
            push_char(&mut out, c);
            i = i + 1;
        }
    }
    proof {
        assert(strip_from(s@, n as int) == Seq::<char>::empty());
        assert(out@.add(Seq::<char>::empty()) =~= out@);
    }
    out
}

/// Executable twin of [`is_csi_body_char`].
fn is_csi_body(c: char) -> (r: bool)
    ensures
        r == is_csi_body_char(c),
{
    c == ';' || c == '?' || ('0' <= c && c <= '9')
}

/// Executable twin of [`is_csi_final_char`].
fn is_csi_final(c: char) -> (r: bool)
    ensures
        r == is_csi_final_char(c),
{
    ('A' <= c && c <= 'Z') || ('a' <= c && c <= 'z')
}

/// Executable twin of [`is_bell_char`].
fn is_bell(c: char) -> (r: bool)
    ensures
        r == is_bell_char(c),
{
    c == '\x07'
}


/// Which output stream of the subprocess a line came from.
#[derive(Clone, Copy, Debug, PartialEq, Eq, Structural)]
pub enum OutputStream {
    Stdout,
    Stderr,
}

/// The tag a stream carries in events and log lines.
pub open spec fn spec_stream_label(stream: OutputStream) -> Seq<char> {
    match stream {
        OutputStream::Stdout => "stdout"@,
        OutputStream::Stderr => "stderr"@,
    }
}

impl OutputStream {
    /// The tag this stream carries in events and log lines.
    pub fn label(&self) -> (r: &'static str)
        ensures
            r@ == spec_stream_label(*self),
    {
        match self {
            OutputStream::Stdout => "stdout",
            OutputStream::Stderr => "stderr",
        }
    }
}

/// One line of agent output, as the front end receives it: which
/// instance, which stream, and the cleaned line.
#[derive(Debug, Clone)]
pub struct AgentOutputEvent {
    pub instance_id: String,
    /// The stream tag, `stdout` or `stderr`.
    pub stream: String,
    /// The line, terminal control sequences removed.
    pub line: String,
}

/// What lossy text decoding makes of raw line bytes.
pub uninterp spec fn utf8_lossy_of(b: Seq<u8>) -> Seq<char>;

/// Relies on `String::from_utf8_lossy`: decodes the bytes as text,
/// substituting the replacement character for invalid sequences.
#[verifier::external_body]
fn decode_utf8_lossy(b: &[u8]) -> (r: String)
    ensures
        r@ == utf8_lossy_of(b@),
{
    String::from_utf8_lossy(b).into_owned()
}

/// What trailing-whitespace trimming leaves of a line.
pub uninterp spec fn trim_end_of(s: Seq<char>) -> Seq<char>;

/// Relies on `str::trim_end`: removes trailing whitespace, by the
/// Unicode white-space property.
#[verifier::external_body]
fn trim_line_end(s: &str) -> (r: String)
    ensures
        r@ == trim_end_of(s@),
{
    s.trim_end().to_owned()
}

/// The cleaned form of one raw output line: decoded leniently, trailing
/// whitespace trimmed, terminal control sequences removed.
pub open spec fn spec_clean_line(raw: Seq<u8>) -> Seq<char> {
    strip_ansi(trim_end_of(utf8_lossy_of(raw)))
}

/// Cleans one raw line read from a subprocess pipe, exactly as
/// [`spec_clean_line`] describes.
pub fn process_output_line(raw: &Vec<u8>) -> (r: String)
    ensures
        r@ == spec_clean_line(raw@),
{
    let decoded = decode_utf8_lossy(raw.as_slice());
    let trimmed = trim_line_end(decoded.as_str());
    strip_ansi_escapes(trimmed.as_str())
}

/// The event one cleaned line becomes.
pub fn make_output_event(instance_id: &str, stream: OutputStream, raw: &Vec<u8>) -> (r:
    AgentOutputEvent)
    ensures
        r.instance_id@ == instance_id@,
        r.stream@ == spec_stream_label(stream),
        r.line@ == spec_clean_line(raw@),
{
    AgentOutputEvent {
        instance_id: instance_id.to_owned(),
        stream: stream.label().to_owned(),
        line: process_output_line(raw),
    }
}

/// The log-file form of one cleaned line: the timestamp, the stream tag
/// in brackets, then the line.
pub open spec fn spec_log_line(
    timestamp: Seq<char>,
    stream: OutputStream,
    line: Seq<char>,
) -> Seq<char> {
    timestamp + " ["@ + spec_stream_label(stream) + "] "@ + line
}

/// Renders one line for the agent's append-only log file. The embedder
/// supplies the local timestamp and appends the result.
pub fn format_log_line(timestamp: &str, stream: OutputStream, line: &str) -> (r: String)
    ensures
        r@ == spec_log_line(timestamp@, stream, line@),
{
    let mut out = timestamp.to_owned();
    out.append(" [");
    out.append(stream.label());
    out.append("] ");
    out.append(line);
    out
}

} // verus!

