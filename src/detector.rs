//! Reading the engine's version banner.
use vstd::prelude::*;

use crate::error::find_char;
use crate::text::{
    chars_of, contains, has_sub, is_digit, lines_of, owned, spec_parse_u64, split_lines,
    split_words, string_from, words_of,
};

verus! {

/// Locating the engine.
pub struct FfmpegDetector;

/// What is known of an engine binary.
#[derive(Debug, Clone)]
pub struct FfmpegInfo {
    /// Path of the engine.
    pub ffmpeg_path: String,
    /// Path of the prober beside it, when there is one.
    pub ffprobe_path: Option<String>,
    /// Version as the banner gives it.
    pub version: String,
    /// Major version; 0 when unreadable.
    pub major_version: u32,
    /// Minor version; 0 when unreadable.
    pub minor_version: u32,
    /// Built with GPL components.
    pub is_gpl: bool,
}

/// Why a banner could not be read.
#[derive(Debug, Clone, Copy, PartialEq, Eq, Structural)]
pub enum DetectError {
    /// The engine printed nothing.
    EmptyOutput,
}

/// The first word that starts with a digit.
pub open spec fn first_numeric(words: Seq<Seq<char>>) -> Option<Seq<char>>
    decreases words.len(),
{
    if words.len() == 0 {
        None
    } else if words[0].len() > 0 && is_digit(words[0][0]) {
        Some(words[0])
    } else {
        first_numeric(words.drop_first())
    }
}

/// The version word of a banner line, `unknown` when there is none.
pub open spec fn spec_version(line: Seq<char>) -> Seq<char> {
    match first_numeric(words_of(line)) {
        Some(w) => w,
        None => "unknown"@,
    }
}

/// A decimal `u32`, with an optional leading `+`.
pub open spec fn spec_parse_u32(s: Seq<char>) -> Option<u32> {
    let digits = if s.len() > 0 && s[0] == '+' {
        s.drop_first()
    } else {
        s
    };
    match spec_parse_u64(digits) {
        Some(n) => if n <= u32::MAX {
            Some(n as u32)
        } else {
            None
        },
        None => None,
    }
}

/// The `k`-th part (0 or 1) of a version split at dots.
pub open spec fn version_part(v: Seq<char>, k: int) -> Option<Seq<char>> {
    match find_char(v, '.', 0) {
        None => if k == 0 {
            Some(v)
        } else {
            None
        },
        Some(d) => if k == 0 {
            Some(v.take(d))
        } else {
            let rest = v.skip(d + 1);
            match find_char(rest, '.', 0) {
                Some(e) => Some(rest.take(e)),
                None => Some(rest),
            }
        },
    }
}

/// A version number from a part, 0 when missing or unreadable.
pub open spec fn version_number(part: Option<Seq<char>>) -> u32 {
    match part {
        Some(p) => match spec_parse_u32(p) {
            Some(n) => n,
            None => 0,
        },
        None => 0,
    }
}

fn find_dot(cs: &Vec<char>, from: usize) -> (r: Option<usize>)
    ensures
        match r {
            Some(i) => find_char(cs@, '.', from as int) == Some(i as int) && from <= i < cs@.len(),
            None => find_char(cs@, '.', from as int) is None,
        },
    decreases cs.len() - from,
{
    if from >= cs.len() {
        None
    } else if cs[from] == '.' {
        Some(from)
    } else {
        find_dot(cs, from + 1)
    }
}

fn text_of(cs: &Vec<char>, lo: usize, hi: usize) -> (r: String)
    requires
        lo <= hi <= cs@.len(),
    ensures
        r@ == cs@.subrange(lo as int, hi as int),
{
    let mut out: Vec<char> = Vec::new();
    let mut i = lo;
    while i < hi
        invariant
            lo <= i <= hi <= cs@.len(),
            out@ == cs@.subrange(lo as int, i as int),
        decreases hi - i,
    {
        out.push(cs[i]);
        assert(out@ =~= cs@.subrange(lo as int, i + 1));
        i = i + 1;
    }
    string_from(out.as_slice())
}

/// Parses a `u32` written in decimal, with an optional leading `+`.
pub fn parse_u32(s: &str) -> (r: Option<u32>)
    ensures
        r == spec_parse_u32(s@),
{
    let cs = chars_of(s);
    let digits = if cs.len() > 0 && cs[0] == '+' {
        text_of(&cs, 1, cs.len())
    } else {
        owned(s)
    };
    proof {
        if cs@.len() > 0 && cs@[0] == '+' {
            assert(digits@ =~= s@.drop_first());
        }
    }
    match crate::text::parse_u64(digits.as_str()) {
        Some(n) => if n <= 0xffff_ffffu64 {
            Some(n as u32)
        } else {
            None
        },
        None => None,
    }
}

fn version_part_text(v: &str, k: usize) -> (r: Option<String>)
    requires
        k <= 1,
    ensures
        crate::text::opt_view(r) == version_part(v@, k as int),
{
    let cs = chars_of(v);
    match find_dot(&cs, 0) {
        None => if k == 0 {
            Some(owned(v))
        } else {
            None
        },
        Some(d) => if k == 0 {
            let t = text_of(&cs, 0, d);
            assert(t@ =~= v@.take(d as int));
            Some(t)
        } else {
            let n = cs.len();
            assert(d < n);
            let rest = text_of(&cs, d + 1, n);
            assert(rest@ =~= v@.skip(d as int + 1));
            let rcs = chars_of(rest.as_str());
            match find_dot(&rcs, 0) {
                Some(e) => {
                    let t = text_of(&rcs, 0, e);
                    assert(t@ =~= rest@.take(e as int));
                    Some(t)
                },
                None => Some(rest),
            }
        },
    }
}

fn version_number_of(part: Option<String>) -> (r: u32)
    ensures
        r == version_number(crate::text::opt_view(part)),
{
    match part {
        Some(p) => match parse_u32(p.as_str()) {
            Some(n) => n,
            None => 0,
        },
        None => 0,
    }
}

impl FfmpegDetector {
    /// Reads the banner that the engine prints for `-version`: the version
    /// is the first word of the first line that starts with a digit, its
    /// major and minor numbers the first two dot-separated parts, and a
    /// GPL build says `--enable-gpl`. Empty output is an error.
    pub fn parse_ffmpeg_output(output: &str, ffmpeg_path: String, ffprobe_path: Option<String>) -> (r:
        Result<FfmpegInfo, DetectError>)
        ensures
            lines_of(output@).len() == 0 ==> r == Err::<FfmpegInfo, DetectError>(DetectError::EmptyOutput),
            lines_of(output@).len() > 0 ==> (r matches Ok(info) && {
                let v = spec_version(lines_of(output@)[0]);
                &&& info.ffmpeg_path == ffmpeg_path
                &&& info.ffprobe_path == ffprobe_path
                &&& info.version@ == v
                &&& info.major_version == version_number(version_part(v, 0))
                &&& info.minor_version == version_number(version_part(v, 1))
                &&& info.is_gpl == has_sub(output@, "--enable-gpl"@)
            }),
    {
        let lines = split_lines(output);
        if lines.len() == 0 {
            return Err(DetectError::EmptyOutput);
        }
        let words = split_words(lines[0].as_str());
        let ghost ws = words_of(lines_of(output@)[0]);
        let mut i: usize = 0;
        let mut version = owned("unknown");
        let mut found = false;
        assert(ws.skip(0) =~= ws);
        while i < words.len() && !found
            invariant
                i <= words@.len(),
                words@.len() == ws.len(),
                forall|k: int| 0 <= k < words@.len() ==> #[trigger] words@[k]@ == ws[k],
                found ==> version@ == spec_version(lines_of(output@)[0]),
                !found ==> first_numeric(ws) == first_numeric(ws.skip(i as int)),
                !found ==> version@ == "unknown"@,
                ws == words_of(lines_of(output@)[0]),
            decreases words.len() - i + if found {
                0int
            } else {
                1int
            },
        {
            let ghost rest = ws.skip(i as int);
            assert(rest[0] == words@[i as int]@);
            assert(rest.drop_first() =~= ws.skip(i as int + 1));
            let wc = chars_of(words[i].as_str());
            if wc.len() > 0 && '0' <= wc[0] && wc[0] <= '9' {
                version = words[i].clone();
                found = true;
            } else {
                i = i + 1;
            }
        }
        proof {
            if !found {
                assert(ws.skip(i as int).len() == 0);
            }
        }
        let major_version = version_number_of(version_part_text(version.as_str(), 0));
        let minor_version = version_number_of(version_part_text(version.as_str(), 1));
        let is_gpl = contains(output, "--enable-gpl");
        Ok(FfmpegInfo { ffmpeg_path, ffprobe_path, version, major_version, minor_version, is_gpl })
    }

    /// Whether the engine is at least major version `min_major`.
    pub fn check_version_requirement(info: &FfmpegInfo, min_major: u32) -> (r: bool)
        ensures
            r == (info.major_version >= min_major),
    {
        info.major_version >= min_major
    }
}

} // verus!
