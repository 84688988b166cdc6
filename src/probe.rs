//! Reading the prober's JSON report: duration, bitrates, resolution and
//! frame rate of a source file.
use vstd::prelude::*;

use crate::error::find_char;
use crate::text::{
    all_digits, chars_of, digits_value, has_sub, is_digit, join3, lines_of, opt_view, owned,
    parse_u64, spec_parse_u64, split_lines, string_from,
};

verus! {

/// A frame rate as a fraction.
#[derive(Clone, Copy, Debug, PartialEq, Eq, Structural)]
pub struct FrameRate {
    pub num: u64,
    pub den: u64,
}

/// What the prober reports of a source file.
#[derive(Clone, Debug, PartialEq)]
pub struct ProbeResult {
    /// Duration in microseconds.
    pub duration_us: Option<u64>,
    /// Video bitrate in bit/s.
    pub video_bitrate: Option<u64>,
    /// Audio bitrate in bit/s.
    pub audio_bitrate: Option<u64>,
    /// Overall bitrate in bit/s.
    pub overall_bitrate: Option<u64>,
    /// Width and height.
    pub resolution: Option<(u32, u32)>,
    /// Frame rate.
    pub fps: Option<FrameRate>,
    /// Video codec name.
    pub video_codec: Option<String>,
    /// Audio codec name.
    pub audio_codec: Option<String>,
}

/// What `str::trim_start` leaves of a text.
pub uninterp spec fn trim_start_of(s: Seq<char>) -> Seq<char>;

/// Relies on `str::trim_start`: the text without leading whitespace.
#[verifier::external_body]
fn trim_start(s: &str) -> (r: String)
    ensures
        r@ == trim_start_of(s@),
{
    s.trim_start().to_string()
}

// ---------------------------------------------------------------------------
// Scanning
// ---------------------------------------------------------------------------

/// Whether `p` occurs in `h` at `i`.
pub open spec fn occurs_at(h: Seq<char>, p: Seq<char>, i: int) -> bool {
    0 <= i && i + p.len() <= h.len() && h.subrange(i, i + p.len()) == p
}

/// The first index at or after `i` where `p` occurs in `h`.
pub open spec fn find_sub(h: Seq<char>, p: Seq<char>, i: int) -> Option<int>
    decreases h.len() + 1 - i,
{
    if i < 0 || i + p.len() > h.len() {
        None
    } else if occurs_at(h, p, i) {
        Some(i)
    } else {
        find_sub(h, p, i + 1)
    }
}

/// Length of the longest prefix of `s` whose characters satisfy the token
/// class: digits and `-`, and also `.` when `decimal` holds.
pub open spec fn token_end(s: Seq<char>, i: int, decimal: bool) -> int
    decreases s.len() - i,
{
    if i < 0 || i >= s.len() {
        s.len() as int
    } else if is_digit(s[i]) || s[i] == '-' || decimal && s[i] == '.' {
        token_end(s, i + 1, decimal)
    } else {
        i
    }
}

/// The text after `"key":` (first occurrence), without leading whitespace.
pub open spec fn after_key(json: Seq<char>, key: Seq<char>) -> Option<Seq<char>> {
    let pat = "\""@ + key + "\":"@;
    match find_sub(json, pat, 0) {
        Some(i) => Some(trim_start_of(json.skip(i + pat.len()))),
        None => None,
    }
}

/// An integer written with an optional leading `-`, within `i64`.
pub open spec fn spec_parse_i64(t: Seq<char>) -> Option<i64> {
    if t.len() > 0 && t[0] == '-' {
        match spec_parse_u64(t.drop_first()) {
            Some(n) => if n <= 0x8000_0000_0000_0000 {
                Some((-(n as int)) as i64)
            } else {
                None
            },
            None => None,
        }
    } else {
        match spec_parse_u64(t) {
            Some(n) => if n <= 0x7fff_ffff_ffff_ffff {
                Some(n as i64)
            } else {
                None
            },
            None => None,
        }
    }
}

/// The integer after `"key":`.
pub open spec fn json_int(json: Seq<char>, key: Seq<char>) -> Option<i64> {
    match after_key(json, key) {
        Some(rest) => spec_parse_i64(rest.take(token_end(rest, 0, false))),
        None => None,
    }
}

/// The quoted text after `"key":`.
pub open spec fn json_string(json: Seq<char>, key: Seq<char>) -> Option<Seq<char>> {
    match after_key(json, key) {
        Some(rest) => if rest.len() > 0 && rest[0] == '"' {
            match find_char(rest.drop_first(), '"', 0) {
                Some(e) => Some(rest.drop_first().take(e)),
                None => None,
            }
        } else {
            None
        },
        None => None,
    }
}

/// The number held in the quoted text after `"key":`.
pub open spec fn json_string_number(json: Seq<char>, key: Seq<char>) -> Option<u64> {
    match json_string(json, key) {
        Some(s) => spec_parse_u64(s),
        None => None,
    }
}

/// Microseconds of a non-negative decimal number of seconds (`12.5`,
/// `3`); digits beyond the sixth decimal are dropped.
pub open spec fn seconds_us(t: Seq<char>) -> Option<u64> {
    let (a, b) = match find_char(t, '.', 0) {
        Some(d) => (t.take(d), t.skip(d + 1)),
        None => (t, seq![]),
    };
    if all_digits(a) && all_digits(b) && a.len() + b.len() > 0 && a.len() <= 19 {
        let frac = if b.len() >= 6 {
            digits_value(b.take(6))
        } else {
            digits_value(b) * pow10((6 - b.len()) as nat)
        };
        let v = digits_value(a) * 1_000_000 + frac;
        if v <= u64::MAX {
            Some(v as u64)
        } else {
            None
        }
    } else {
        None
    }
}

pub open spec fn pow10(n: nat) -> nat
    decreases n,
{
    if n == 0 {
        1
    } else {
        10 * pow10((n - 1) as nat)
    }
}

/// The duration after `"key":`, in microseconds.
pub open spec fn json_seconds(json: Seq<char>, key: Seq<char>) -> Option<u64> {
    match after_key(json, key) {
        Some(rest) => seconds_us(rest.take(token_end(rest, 0, true))),
        None => None,
    }
}

/// A frame rate written `num/den` (with `den > 0`) or as a whole number.
pub open spec fn spec_frame_rate(s: Seq<char>) -> Option<FrameRate> {
    match find_char(s, '/', 0) {
        Some(i) => {
            let rest = s.skip(i + 1);
            if find_char(rest, '/', 0) is None {
                match (spec_parse_u64(s.take(i)), spec_parse_u64(rest)) {
                    (Some(n), Some(d)) => if d > 0 {
                        Some(FrameRate { num: n, den: d })
                    } else {
                        None
                    },
                    _ => None,
                }
            } else {
                None
            }
        },
        None => match spec_parse_u64(s) {
            Some(n) => Some(FrameRate { num: n, den: 1 }),
            None => None,
        },
    }
}

// ---------------------------------------------------------------------------
// Executable scanning
// ---------------------------------------------------------------------------

fn occurs_at_exec(h: &Vec<char>, p: &Vec<char>, i: usize) -> (r: bool)
    requires
        i + p@.len() <= h@.len(),
    ensures
        r == occurs_at(h@, p@, i as int),
{
    let mut j: usize = 0;
    while j < p.len()
        invariant
            j <= p@.len(),
            i + p@.len() <= h@.len(),
            forall|k: int| 0 <= k < j ==> h@[i + k] == p@[k],
        decreases p.len() - j,
    {
        let n = h.len();
        assert(i + j < n);
        let k = i + j;
        if h[k] != p[j] {
            assert(h@.subrange(i as int, i + p@.len())[j as int] != p@[j as int]);
            return false;
        }
        j = j + 1;
    }
    assert(h@.subrange(i as int, i + p@.len()) =~= p@);
    true
}

fn find_sub_exec(h: &Vec<char>, p: &Vec<char>) -> (r: Option<usize>)
    ensures
        match r {
            Some(i) => find_sub(h@, p@, 0) == Some(i as int) && i + p@.len() <= h@.len(),
            None => find_sub(h@, p@, 0) is None,
        },
{
    if p.len() > h.len() {
        return None;
    }
    let mut i: usize = 0;
    let last = h.len() - p.len();
    while i <= last
        invariant
            last == h@.len() - p@.len(),
            p@.len() <= h@.len(),
            i <= last + 1,
            find_sub(h@, p@, 0) == find_sub(h@, p@, i as int),
        decreases last + 1 - i,
    {
        if occurs_at_exec(h, p, i) {
            return Some(i);
        }
        if i == last {
            assert(find_sub(h@, p@, i + 1) is None);
            return None;
        }
        i = i + 1;
    }
    None
}

fn chars_between(cs: &Vec<char>, lo: usize, hi: usize) -> (r: String)
    requires
        lo <= hi <= cs@.len(),
    ensures
        r@ == cs@.subrange(lo as int, hi as int),
{
    let mut out: Vec<char> = Vec::new();
    let mut i = lo;
    while i < hi
        invariant
            lo <= i <= hi <= cs@.len(),
            out@ == cs@.subrange(lo as int, i as int),
        decreases hi - i,
    {
        out.push(cs[i]);
        assert(out@ =~= cs@.subrange(lo as int, i + 1));
        i = i + 1;
    }
    string_from(out.as_slice())
}

fn after_key_exec(json: &str, key: &str) -> (r: Option<String>)
    ensures
        opt_view(r) == after_key(json@, key@),
{
    let pat = join3("\"", key, "\":");
    let h = chars_of(json);
    let p = chars_of(pat.as_str());
    match find_sub_exec(&h, &p) {
        Some(i) => {
            let n = h.len();
            let rest = chars_between(&h, i + p.len(), n);
            assert(rest@ =~= json@.skip(i + pat@.len()));
            Some(trim_start(rest.as_str()))
        },
        None => None,
    }
}

fn token_end_exec(s: &Vec<char>, decimal: bool) -> (r: usize)
    ensures
        r as int == token_end(s@, 0, decimal),
        r <= s@.len(),
{
    let mut i: usize = 0;
    while i < s.len() && ('0' <= s[i] && s[i] <= '9' || s[i] == '-' || decimal && s[i] == '.')
        invariant
            i <= s@.len(),
            token_end(s@, 0, decimal) == token_end(s@, i as int, decimal),
        decreases s.len() - i,
    {
        i = i + 1;
    }
    i
}

fn parse_i64(t: &str) -> (r: Option<i64>)
    ensures
        r == spec_parse_i64(t@),
{
    let cs = chars_of(t);
    if cs.len() > 0 && cs[0] == '-' {
        let n = cs.len();
        let digits = chars_between(&cs, 1, n);
        assert(digits@ =~= t@.drop_first());
        match parse_u64(digits.as_str()) {
            Some(v) => if v <= 0x8000_0000_0000_0000u64 {
                if v == 0x8000_0000_0000_0000u64 {
                    Some(i64::MIN)
                } else {
                    Some(-(v as i64))
                }
            } else {
                None
            },
            None => None,
        }
    } else {
        match parse_u64(t) {
            Some(v) => if v <= 0x7fff_ffff_ffff_ffffu64 {
                Some(v as i64)
            } else {
                None
            },
            None => None,
        }
    }
}

fn extract_json_int(json: &str, key: &str) -> (r: Option<i64>)
    ensures
        r == json_int(json@, key@),
{
    match after_key_exec(json, key) {
        Some(rest) => {
            let cs = chars_of(rest.as_str());
            let end = token_end_exec(&cs, false);
            let t = chars_between(&cs, 0, end);
            assert(t@ =~= rest@.take(end as int));
            parse_i64(t.as_str())
        },
        None => None,
    }
}

fn find_quote_char(cs: &Vec<char>, from: usize) -> (r: Option<usize>)
    ensures
        match r {
            Some(i) => find_char(cs@, '"', from as int) == Some(i as int) && from <= i < cs@.len(),
            None => find_char(cs@, '"', from as int) is None,
        },
    decreases cs.len() - from,
{
    if from >= cs.len() {
        None
    } else if cs[from] == '"' {
        Some(from)
    } else {
        find_quote_char(cs, from + 1)
    }
}

fn extract_json_string(json: &str, key: &str) -> (r: Option<String>)
    ensures
        opt_view(r) == json_string(json@, key@),
{
    match after_key_exec(json, key) {
        Some(rest) => {
            let cs = chars_of(rest.as_str());
            if cs.len() > 0 && cs[0] == '"' {
                let n = cs.len();
                let content = chars_between(&cs, 1, n);
                assert(content@ =~= rest@.drop_first());
                let ccs = chars_of(content.as_str());
                match find_quote_char(&ccs, 0) {
                    Some(e) => {
                        let v = chars_between(&ccs, 0, e);
                        assert(v@ =~= content@.take(e as int));
                        Some(v)
                    },
                    None => None,
                }
            } else {
                None
            }
        },
        None => None,
    }
}

fn extract_json_string_number(json: &str, key: &str) -> (r: Option<u64>)
    ensures
        r == json_string_number(json@, key@),
{
    match extract_json_string(json, key) {
        Some(t) => parse_u64(t.as_str()),
        None => None,
    }
}

fn find_in(cs: &Vec<char>, c: char, from: usize) -> (r: Option<usize>)
    ensures
        match r {
            Some(i) => find_char(cs@, c, from as int) == Some(i as int) && from <= i < cs@.len(),
            None => find_char(cs@, c, from as int) is None,
        },
    decreases cs.len() - from,
{
    if from >= cs.len() {
        None
    } else if cs[from] == c {
        Some(from)
    } else {
        find_in(cs, c, from + 1)
    }
}

fn digits_only(cs: &Vec<char>) -> (r: bool)
    ensures
        r == all_digits(cs@),
{
    let mut i: usize = 0;
    while i < cs.len()
        invariant
            i <= cs@.len(),
            forall|k: int| 0 <= k < i ==> is_digit(#[trigger] cs@[k]),
        decreases cs.len() - i,
    {
        if !('0' <= cs[i] && cs[i] <= '9') {
            assert(!is_digit(cs@[i as int]));
            return false;
        }
        i = i + 1;
    }
    true
}

proof fn lemma_pow10_bound(n: nat)
    requires
        n <= 6,
    ensures
        1 <= pow10(n) <= 1_000_000,
    decreases n,
{
    reveal_with_fuel(pow10, 7);
    if n == 0 {
    } else if n == 1 {
    } else if n == 2 {
    } else if n == 3 {
    } else if n == 4 {
    } else if n == 5 {
    } else {
        assert(n == 6);
    }
}

proof fn lemma_digits_bound(s: Seq<char>)
    requires
        all_digits(s),
    ensures
        digits_value(s) < pow10(s.len()),
    decreases s.len(),
{
    if s.len() > 0 {
        assert(all_digits(s.drop_last())) by {
            assert forall|i: int| 0 <= i < s.drop_last().len() implies is_digit(#[trigger] s.drop_last()[i]) by {
                assert(s.drop_last()[i] == s[i]);
            }
        }
        lemma_digits_bound(s.drop_last());
        assert(is_digit(s[s.len() - 1]));
    }
}

fn pow10_exec(n: u64) -> (r: u64)
    requires
        n <= 6,
    ensures
        r == pow10(n as nat),
    decreases n,
{
    proof {
        lemma_pow10_bound(n as nat);
    }
    if n == 0 {
        1
    } else {
        proof {
            lemma_pow10_bound((n - 1) as nat);
        }
        10 * pow10_exec(n - 1)
    }
}

/// Microseconds of a decimal number of seconds.
pub fn parse_seconds_us(t: &str) -> (r: Option<u64>)
    ensures
        r == seconds_us(t@),
{
    let cs = chars_of(t);
    let (a, b) = match find_in(&cs, '.', 0) {
        Some(d) => {
            let n = cs.len();
            let a = chars_between(&cs, 0, d);
            let b = chars_between(&cs, d + 1, n);
            assert(a@ =~= t@.take(d as int));
            assert(b@ =~= t@.skip(d as int + 1));
            (a, b)
        },
        None => (owned(t), String::new()),
    };
    let acs = chars_of(a.as_str());
    let bcs = chars_of(b.as_str());
    if !(digits_only(&acs) && digits_only(&bcs) && acs.len() + bcs.len() > 0 && acs.len() <= 19) {
        return None;
    }
    let whole = if acs.len() == 0 {
        0
    } else {
        match parse_u64(a.as_str()) {
            Some(v) => v,
            None => {
                return None;
            },
        }
    };
    proof {
        if acs.len() == 0 {
            assert(digits_value(a@) == 0);
        }
    }
    let frac: u64 = if bcs.len() >= 6 {
        let six = chars_between(&bcs, 0, 6);
        assert(six@ =~= b@.take(6));
        let scs = chars_of(six.as_str());
        proof {
            assert forall|i: int| 0 <= i < six@.len() implies is_digit(#[trigger] six@[i]) by {
                assert(six@[i] == bcs@[i]);
            }
            lemma_digits_bound(six@);
            lemma_pow10_bound(6);
            assert(pow10(6) == 1_000_000) by {
                reveal_with_fuel(pow10, 7);
            }
        }
        match parse_u64(six.as_str()) {
            Some(v) => v,
            None => {
                return None;
            },
        }
    } else {
        proof {
            lemma_digits_bound(b@);
            lemma_pow10_bound(bcs@.len());
            lemma_pow10_bound((6 - bcs@.len()) as nat);
        }
        let v: u64 = if bcs.len() == 0 {
            0
        } else {
            match parse_u64(b.as_str()) {
                Some(v) => v,
                None => {
                    return None;
                },
            }
        };
        proof {
            if bcs.len() == 0 {
                assert(digits_value(b@) == 0);
            }
        }
        let m = pow10_exec((6 - bcs.len()) as u64);
        assert(v * m <= 1_000_000 * 1_000_000) by (nonlinear_arith)
            requires
                v <= 1_000_000,
                m <= 1_000_000,
        ;
        v * m
    };
    match whole.checked_mul(1_000_000) {
        Some(w) => w.checked_add(frac),
        None => None,
    }
}

fn extract_json_seconds(json: &str, key: &str) -> (r: Option<u64>)
    ensures
        r == json_seconds(json@, key@),
{
    match after_key_exec(json, key) {
        Some(rest) => {
            let cs = chars_of(rest.as_str());
            let end = token_end_exec(&cs, true);
            let t = chars_between(&cs, 0, end);
            assert(t@ =~= rest@.take(end as int));
            parse_seconds_us(t.as_str())
        },
        None => None,
    }
}

/// Parses a frame rate such as `30000/1001` or `25`.
pub fn parse_frame_rate(s: &str) -> (r: Option<FrameRate>)
    ensures
        r == spec_frame_rate(s@),
{
    let cs = chars_of(s);
    match find_in(&cs, '/', 0) {
        Some(i) => {
            let n = cs.len();
            let num = chars_between(&cs, 0, i);
            let rest = chars_between(&cs, i + 1, n);
            assert(num@ =~= s@.take(i as int));
            assert(rest@ =~= s@.skip(i as int + 1));
            let rcs = chars_of(rest.as_str());
            if find_in(&rcs, '/', 0).is_some() {
                return None;
            }
            match (parse_u64(num.as_str()), parse_u64(rest.as_str())) {
                (Some(a), Some(d)) => if d > 0 {
                    Some(FrameRate { num: a, den: d })
                } else {
                    None
                },
                _ => None,
            }
        },
        None => match parse_u64(s) {
            Some(a) => Some(FrameRate { num: a, den: 1 }),
            None => None,
        },
    }
}

// ---------------------------------------------------------------------------
// The report as a whole
// ---------------------------------------------------------------------------

/// A probe result with its texts as characters.
pub struct ProbeFacts {
    pub duration_us: Option<u64>,
    pub video_bitrate: Option<u64>,
    pub audio_bitrate: Option<u64>,
    pub overall_bitrate: Option<u64>,
    pub resolution: Option<(u32, u32)>,
    pub fps: Option<FrameRate>,
    pub video_codec: Option<Seq<char>>,
    pub audio_codec: Option<Seq<char>>,
}

impl View for ProbeResult {
    type V = ProbeFacts;

    open spec fn view(&self) -> ProbeFacts {
        ProbeFacts {
            duration_us: self.duration_us,
            video_bitrate: self.video_bitrate,
            audio_bitrate: self.audio_bitrate,
            overall_bitrate: self.overall_bitrate,
            resolution: self.resolution,
            fps: self.fps,
            video_codec: opt_view(self.video_codec),
            audio_codec: opt_view(self.audio_codec),
        }
    }
}

/// Whether a stream block declares the given codec type.
pub open spec fn is_stream_of(block: Seq<char>, kind: Seq<char>) -> bool {
    has_sub(block, "\"codec_type\": \""@ + kind + "\""@) || has_sub(block, "\"codec_type\":\""@ + kind
        + "\""@)
}

/// Width and height of a video stream block, when both are in range.
pub open spec fn block_resolution(block: Seq<char>) -> Option<(u32, u32)> {
    match (json_int(block, "width"@), json_int(block, "height"@)) {
        (Some(w), Some(h)) => if 0 <= w <= u32::MAX && 0 <= h <= u32::MAX {
            Some((w as u32, h as u32))
        } else {
            None
        },
        _ => None,
    }
}

pub open spec fn or_keep<T>(new: Option<T>, old: Option<T>) -> Option<T> {
    match new {
        Some(v) => Some(v),
        None => old,
    }
}

/// What one complete stream block adds: a video block sets resolution,
/// bitrate, frame rate and codec where it gives them; the first audio
/// block that gives a bitrate or a codec sets it.
pub open spec fn stream_update(f: ProbeFacts, block: Seq<char>) -> ProbeFacts {
    if is_stream_of(block, "video"@) {
        ProbeFacts {
            resolution: or_keep(block_resolution(block), f.resolution),
            video_bitrate: or_keep(json_string_number(block, "bit_rate"@), f.video_bitrate),
            fps: or_keep(
                match json_string(block, "r_frame_rate"@) {
                    Some(t) => spec_frame_rate(t),
                    None => None,
                },
                f.fps,
            ),
            video_codec: or_keep(json_string(block, "codec_name"@), f.video_codec),
            ..f
        }
    } else if is_stream_of(block, "audio"@) {
        ProbeFacts {
            audio_bitrate: or_keep(f.audio_bitrate, json_string_number(block, "bit_rate"@)),
            audio_codec: or_keep(f.audio_codec, json_string(block, "codec_name"@)),
            ..f
        }
    } else {
        f
    }
}

/// How many times `c` occurs in `s`.
pub open spec fn count_char(s: Seq<char>, c: char) -> nat
    decreases s.len(),
{
    if s.len() == 0 {
        0
    } else {
        count_char(s.drop_last(), c) + if s.last() == c {
            1nat
        } else {
            0nat
        }
    }
}

/// Brace depth after a line, kept within `i64`.
pub open spec fn next_depth(depth: i64, line: Seq<char>) -> i64 {
    let d = depth as int + count_char(line, '{') as int - count_char(line, '}') as int;
    if d > i64::MAX {
        i64::MAX
    } else if d < i64::MIN {
        i64::MIN
    } else {
        d as i64
    }
}

/// Scanner state: inside the streams list, brace depth, the pending stream
/// block, and what was learnt so far.
pub struct ScanState {
    pub in_streams: bool,
    pub depth: i64,
    pub block: Seq<char>,
    pub facts: ProbeFacts,
}

/// One line of the report. Lines from the one naming `"streams"` on are
/// gathered into blocks; a block closes where the brace depth returns to
/// zero, if it mentions a codec type.
pub open spec fn scan_line(st: ScanState, line: Seq<char>) -> ScanState {
    if has_sub(crate::text::trimmed_of(line), "\"streams\""@) {
        ScanState { in_streams: true, ..st }
    } else if st.in_streams {
        let block = st.block + line;
        let depth = next_depth(st.depth, line);
        if depth == 0 && block.len() > 0 && has_sub(block, "codec_type"@) {
            ScanState { depth, block: seq![], facts: stream_update(st.facts, block), ..st }
        } else {
            ScanState { depth, block, ..st }
        }
    } else {
        st
    }
}

/// The scanner state after a run of lines.
pub open spec fn scan_lines(st: ScanState, lines: Seq<Seq<char>>) -> ScanState
    decreases lines.len(),
{
    if lines.len() == 0 {
        st
    } else {
        scan_line(scan_lines(st, lines.drop_last()), lines.last())
    }
}

/// Duration and overall bitrate from the `"format"` section.
pub open spec fn format_facts(json: Seq<char>) -> ProbeFacts {
    let (d, o) = match find_sub(json, "\"format\""@, 0) {
        Some(p) => (json_seconds(json.skip(p), "duration"@), json_string_number(json.skip(p), "bit_rate"@)),
        None => (None, None),
    };
    ProbeFacts {
        duration_us: d,
        video_bitrate: None,
        audio_bitrate: None,
        overall_bitrate: o,
        resolution: None,
        fps: None,
        video_codec: None,
        audio_codec: None,
    }
}

/// A missing video bitrate is the overall bitrate less the audio bitrate,
/// or nine tenths of the overall bitrate when the audio bitrate is unknown.
pub open spec fn with_video_estimate(f: ProbeFacts) -> ProbeFacts {
    if f.video_bitrate is None {
        ProbeFacts {
            video_bitrate: match (f.overall_bitrate, f.audio_bitrate) {
                (Some(o), Some(a)) => if o > a {
                    Some((o - a) as u64)
                } else {
                    None
                },
                (Some(o), None) => Some((o as nat * 9 / 10) as u64),
                _ => None,
            },
            ..f
        }
    } else {
        f
    }
}

/// Everything the report gives.
pub open spec fn spec_probe(json: Seq<char>) -> ProbeFacts {
    with_video_estimate(
        scan_lines(
            ScanState { in_streams: false, depth: 0, block: seq![], facts: format_facts(json) },
            lines_of(json),
        ).facts,
    )
}

fn count_in(cs: &Vec<char>, c: char) -> (r: u64)
    ensures
        r == count_char(cs@, c),
{
    let mut n: u64 = 0;
    let mut i: usize = 0;
    while i < cs.len()
        invariant
            i <= cs@.len(),
            n == count_char(cs@.take(i as int), c),
            n <= i,
        decreases cs.len() - i,
    {
        assert(cs@.take(i as int + 1).drop_last() =~= cs@.take(i as int));
        if cs[i] == c {
            n = n + 1;
        }
        i = i + 1;
    }
    assert(cs@.take(i as int) =~= cs@);
    n
}

fn stream_of(block: &str, kind: &str) -> (r: bool)
    ensures
        r == is_stream_of(block@, kind@),
{
    let a = join3("\"codec_type\": \"", kind, "\"");
    let b = join3("\"codec_type\":\"", kind, "\"");
    crate::text::contains(block, a.as_str()) || crate::text::contains(block, b.as_str())
}

impl ProbeResult {
    /// Nothing known yet.
    pub fn new() -> (r: Self)
        ensures
            r@ == (ProbeFacts {
                duration_us: None,
                video_bitrate: None,
                audio_bitrate: None,
                overall_bitrate: None,
                resolution: None,
                fps: None,
                video_codec: None,
                audio_codec: None,
            }),
    {
        ProbeResult {
            duration_us: None,
            video_bitrate: None,
            audio_bitrate: None,
            overall_bitrate: None,
            resolution: None,
            fps: None,
            video_codec: None,
            audio_codec: None,
        }
    }

    fn take_stream(&mut self, block: &str)
        ensures
            final(self)@ == stream_update(old(self)@, block@),
    {
        if stream_of(block, "video") {
            if let Some(w) = extract_json_int(block, "width") {
                if let Some(h) = extract_json_int(block, "height") {
                    if 0 <= w && w <= 0xffff_ffffi64 && 0 <= h && h <= 0xffff_ffffi64 {
                        self.resolution = Some((w as u32, h as u32));
                    }
                }
            }
            if let Some(b) = extract_json_string_number(block, "bit_rate") {
                self.video_bitrate = Some(b);
            }
            if let Some(t) = extract_json_string(block, "r_frame_rate") {
                if let Some(f) = parse_frame_rate(t.as_str()) {
                    self.fps = Some(f);
                }
            }
            if let Some(c) = extract_json_string(block, "codec_name") {
                self.video_codec = Some(c);
            }
        } else if stream_of(block, "audio") {
            if self.audio_bitrate.is_none() {
                if let Some(b) = extract_json_string_number(block, "bit_rate") {
                    self.audio_bitrate = Some(b);
                }
            }
            if self.audio_codec.is_none() {
                if let Some(c) = extract_json_string(block, "codec_name") {
                    self.audio_codec = Some(c);
                }
            }
        }
    }
}

impl crate::detector::FfmpegInfo {
    /// Reads the prober's JSON report.
    pub fn parse_probe_json(json_str: &str) -> (r: ProbeResult)
        ensures
            r@ == spec_probe(json_str@),
    {
        let mut result = ProbeResult::new();
        let h = chars_of(json_str);
        let fp = chars_of("\"format\"");
        match find_sub_exec(&h, &fp) {
            Some(pos) => {
                let n = h.len();
                let section = chars_between(&h, pos, n);
                assert(section@ =~= json_str@.skip(pos as int));
                result.duration_us = extract_json_seconds(section.as_str(), "duration");
                result.overall_bitrate = extract_json_string_number(section.as_str(), "bit_rate");
            },
            None => {},
        }
        let ghost init = ScanState {
            in_streams: false,
            depth: 0,
            block: seq![],
            facts: format_facts(json_str@),
        };
        assert(result@ == init.facts);
        let lines = split_lines(json_str);
        let ghost all = lines_of(json_str@);
        let mut in_streams = false;
        let mut depth: i64 = 0;
        let mut block = String::new();
        let mut i: usize = 0;
        assert(all.take(0) =~= seq![]);
        while i < lines.len()
            invariant
                i <= lines@.len(),
                lines@.len() == all.len(),
                forall|k: int| 0 <= k < lines@.len() ==> #[trigger] lines@[k]@ == all[k],
                ({
                    let st = scan_lines(init, all.take(i as int));
                    &&& st.in_streams == in_streams
                    &&& st.depth == depth
                    &&& st.block == block@
                    &&& st.facts == result@
                }),
            decreases lines.len() - i,
        {
            assert(all.take(i as int + 1).drop_last() =~= all.take(i as int));
            assert(all.take(i as int + 1).last() == lines@[i as int]@);
            let line = lines[i].as_str();
            let trimmed = crate::text::trim(line);
            if crate::text::contains(trimmed.as_str(), "\"streams\"") {
                in_streams = true;
            } else if in_streams {
                block.append(line);
                let lcs = chars_of(line);
                let open = count_in(&lcs, '{');
                let close = count_in(&lcs, '}');
                let d = depth as i128 + open as i128 - close as i128;
                depth = if d > i64::MAX as i128 {
                    i64::MAX
                } else if d < i64::MIN as i128 {
                    i64::MIN
                } else {
                    d as i64
                };
                if depth == 0 && block.as_str().unicode_len() > 0 && crate::text::contains(
                    block.as_str(),
                    "codec_type",
                ) {
                    result.take_stream(block.as_str());
                    block = String::new();
                }
            }
            i = i + 1;
        }
        assert(all.take(i as int) =~= all);
        if result.video_bitrate.is_none() {
            match (result.overall_bitrate, result.audio_bitrate) {
                (Some(o), Some(a)) => {
                    if o > a {
                        result.video_bitrate = Some(o - a);
                    }
                },
                (Some(o), None) => {
                    result.video_bitrate = Some((o as u128 * 9 / 10) as u64);
                },
                _ => {},
            }
        }
        result
    }
}

} // verus!
