//! The engine's progress protocol and the progress model of one job.
use vstd::prelude::*;

use crate::error::find_char;
use crate::text::{
    all_digits, chars_of, decimal, decimal_string, digit_value, digits_value, is_digit, join2, join3, owned,
    parse_u64, spec_parse_u64, string_from,
};

verus! {

/// Largest fraction complete, in ten-thousandths.
pub const FULL: u64 = 10000;

// ---------------------------------------------------------------------------
// The line protocol
// ---------------------------------------------------------------------------

/// Key and value of a `key=value` line, split at the first `=`.
pub open spec fn split_kv(line: Seq<char>) -> Option<(Seq<char>, Seq<char>)> {
    match find_char(line, '=', 0) {
        Some(i) => Some((line.take(i), line.skip(i + 1))),
        None => None,
    }
}

/// A frame rate such as `29.97` in hundredths (digits beyond the second
/// decimal are dropped); `None` unless it is digits with at most one dot.
pub open spec fn spec_parse_centi(s: Seq<char>) -> Option<u64> {
    match find_char(s, '.', 0) {
        None => match spec_parse_u64(s) {
            Some(v) => if v as nat * 100 <= u64::MAX {
                Some((v as nat * 100) as u64)
            } else {
                None
            },
            None => None,
        },
        Some(d) => {
            let int_part = s.take(d);
            let frac = s.skip(d + 1);
            if all_digits(frac) && frac.len() <= 18 {
                match spec_parse_u64(int_part) {
                    Some(v) => {
                        let f = if frac.len() == 0 {
                            0nat
                        } else if frac.len() == 1 {
                            digits_value(frac) * 10
                        } else {
                            digits_value(frac.take(2))
                        };
                        if v as nat * 100 + f <= u64::MAX {
                            Some((v as nat * 100 + f) as u64)
                        } else {
                            None
                        }
                    },
                    None => None,
                }
            } else {
                None
            }
        },
    }
}

/// One record of the progress protocol, filled line by line.
#[derive(Clone, Copy, Debug, PartialEq, Eq, Structural)]
pub struct FfmpegProgressInfo {
    /// Frames encoded so far (a running total).
    pub frame: u64,
    /// Encoding speed in hundredths of a frame per second.
    pub fps_centi: u64,
    /// Media time reached, in microseconds.
    pub out_time_us: Option<u64>,
    /// Bytes written so far.
    pub total_size: Option<u64>,
    /// The record closed with `progress=end`.
    pub finished: bool,
}

/// What one line does to the pending record: the record after it, and
/// whether the line closed the record.
pub open spec fn spec_apply_line(info: FfmpegProgressInfo, line: Seq<char>) -> (FfmpegProgressInfo, bool) {
    match split_kv(line) {
        None => (info, false),
        Some((k, v)) => if k == "progress"@ {
            (FfmpegProgressInfo { finished: v == "end"@, ..info }, true)
        } else if k == "frame"@ {
            match spec_parse_u64(v) {
                Some(n) => (FfmpegProgressInfo { frame: n, ..info }, false),
                None => (info, false),
            }
        } else if k == "fps"@ {
            match spec_parse_centi(v) {
                Some(n) => (FfmpegProgressInfo { fps_centi: n, ..info }, false),
                None => (info, false),
            }
        } else if k == "out_time_us"@ || k == "out_time_ms"@ {
            match spec_parse_u64(v) {
                Some(n) => (FfmpegProgressInfo { out_time_us: Some(n), ..info }, false),
                None => (info, false),
            }
        } else if k == "total_size"@ {
            match spec_parse_u64(v) {
                Some(n) => (FfmpegProgressInfo { total_size: Some(n), ..info }, false),
                None => (info, false),
            }
        } else {
            (info, false)
        },
    }
}

fn find_in(cs: &Vec<char>, c: char, from: usize) -> (r: Option<usize>)
    ensures
        match r {
            Some(i) => find_char(cs@, c, from as int) == Some(i as int) && from <= i < cs@.len(),
            None => find_char(cs@, c, from as int) is None,
        },
    decreases cs.len() - from,
{
    if from >= cs.len() {
        None
    } else if cs[from] == c {
        Some(from)
    } else {
        find_in(cs, c, from + 1)
    }
}

fn slice_text(cs: &Vec<char>, lo: usize, hi: usize) -> (r: String)
    requires
        lo <= hi <= cs@.len(),
    ensures
        r@ == cs@.subrange(lo as int, hi as int),
{
    let mut out: Vec<char> = Vec::new();
    let mut i = lo;
    while i < hi
        invariant
            lo <= i <= hi <= cs@.len(),
            out@ == cs@.subrange(lo as int, i as int),
        decreases hi - i,
    {
        out.push(cs[i]);
        assert(out@ =~= cs@.subrange(lo as int, i + 1));
        i = i + 1;
    }
    string_from(out.as_slice())
}

fn is_literal(s: &str, lit: &str) -> (r: bool)
    ensures
        r == (s@ == lit@),
{
    owned(s) == owned(lit)
}

/// Parses a frame rate into hundredths.
pub fn parse_centi(s: &str) -> (r: Option<u64>)
    ensures
        r == spec_parse_centi(s@),
{
    let cs = chars_of(s);
    match find_in(&cs, '.', 0) {
        None => match parse_u64(s) {
            Some(v) => v.checked_mul(100),
            None => None,
        },
        Some(d) => {
            let int_part = slice_text(&cs, 0, d);
            let frac = slice_text(&cs, d + 1, cs.len());
            assert(int_part@ =~= s@.take(d as int));
            assert(frac@ =~= s@.skip(d as int + 1));
            let fcs = chars_of(frac.as_str());
            assert(fcs@ == s@.skip(d as int + 1));
            if fcs.len() > 18 {
                return None;
            }
            let mut k: usize = 0;
            while k < fcs.len()
                invariant
                    k <= fcs@.len(),
                    fcs@.len() <= 18,
                    fcs@ == s@.skip(d as int + 1),
                    find_char(s@, '.', 0) == Some(d as int),
                    forall|j: int| 0 <= j < k ==> is_digit(#[trigger] fcs@[j]),
                decreases fcs.len() - k,
            {
                if !('0' <= fcs[k] && fcs[k] <= '9') {
                    assert(!is_digit(fcs@[k as int]));
                    assert(!all_digits(s@.skip(d as int + 1)));
                    return None;
                }
                k = k + 1;
            }
            assert(all_digits(fcs@));
            let f: u64 = if fcs.len() == 0 {
                0
            } else if fcs.len() == 1 {
                assert(fcs@.drop_last() =~= seq![]);
                assert(digits_value(fcs@) == digits_value(seq![]) * 10 + (fcs@[0] as u32 - '0' as u32) as nat);
                (fcs[0] as u32 - '0' as u32) as u64 * 10
            } else {
                let ghost two = fcs@.take(2int);
                assert(two.drop_last() =~= fcs@.take(1int));
                assert(fcs@.take(1int).drop_last() =~= seq![]);
                assert(two.last() == fcs@[1]);
                assert(fcs@.take(1int).last() == fcs@[0]);
                assert(digits_value(fcs@.take(1int).drop_last()) == 0);
                assert(digits_value(fcs@.take(1int)) == digit_value(fcs@[0]));
                assert(digits_value(two) == digits_value(fcs@.take(1int)) * 10 + digit_value(fcs@[1]));
                (fcs[0] as u32 - '0' as u32) as u64 * 10 + (fcs[1] as u32 - '0' as u32) as u64
            };
            match parse_u64(int_part.as_str()) {
                Some(v) => match v.checked_mul(100) {
                    Some(m) => m.checked_add(f),
                    None => None,
                },
                None => None,
            }
        },
    }
}

impl FfmpegProgressInfo {
    /// An empty record.
    pub fn new() -> (r: Self)
        ensures
            r == (FfmpegProgressInfo {
                frame: 0,
                fps_centi: 0,
                out_time_us: None,
                total_size: None,
                finished: false,
            }),
    {
        FfmpegProgressInfo { frame: 0, fps_centi: 0, out_time_us: None, total_size: None, finished: false }
    }

    /// Takes one protocol line into the record; true when the line closes
    /// the record. Malformed lines change nothing.
    pub fn parse_progress_line(&mut self, line: &str) -> (r: bool)
        ensures
            (*final(self), r) == spec_apply_line(*old(self), line@),
    {
        let cs = chars_of(line);
        let found = find_in(&cs, '=', 0);
        if found.is_none() {
            return false;
        }
        let eq = found.unwrap();
        let n = cs.len();
        assert(eq < n);
        let key = slice_text(&cs, 0, eq);
        let value = slice_text(&cs, eq + 1, n);
        assert(key@ =~= line@.take(eq as int));
        assert(value@ =~= line@.skip(eq as int + 1));
        let k = key.as_str();
        let v = value.as_str();
        if is_literal(k, "progress") {
            self.finished = is_literal(v, "end");
            return true;
        }
        if is_literal(k, "frame") {
            if let Some(n) = parse_u64(v) {
                self.frame = n;
            }
        } else if is_literal(k, "fps") {
            if let Some(n) = parse_centi(v) {
                self.fps_centi = n;
            }
        } else if is_literal(k, "out_time_us") || is_literal(k, "out_time_ms") {
            if let Some(n) = parse_u64(v) {
                self.out_time_us = Some(n);
            }
        } else if is_literal(k, "total_size") {
            if let Some(n) = parse_u64(v) {
                self.total_size = Some(n);
            }
        }
        false
    }

    /// A record is usable once it carries the media time.
    pub fn is_valid(&self) -> (r: bool)
        ensures
            r == self.out_time_us.is_some(),
    {
        self.out_time_us.is_some()
    }

    /// The record that follows this one: empty, but for the running frame
    /// count and the frame rate.
    pub fn next_record(&self) -> (r: Self)
        ensures
            r == (FfmpegProgressInfo {
                frame: self.frame,
                fps_centi: self.fps_centi,
                out_time_us: None,
                total_size: None,
                finished: false,
            }),
    {
        FfmpegProgressInfo {
            frame: self.frame,
            fps_centi: self.fps_centi,
            out_time_us: None,
            total_size: None,
            finished: false,
        }
    }
}

// ---------------------------------------------------------------------------
// Progress of one job
// ---------------------------------------------------------------------------

/// A snapshot of a job's progress.
#[derive(Clone, Copy, Debug, PartialEq, Eq, Structural)]
pub struct TranscodeProgress {
    /// Frames encoded so far.
    pub frames_processed: u64,
    /// Expected number of frames, when known.
    pub total_frames: Option<u64>,
    /// Fraction complete in ten-thousandths, `0..=10000`.
    pub progress_permyriad: u64,
    /// Encoding speed in hundredths of a frame per second.
    pub fps_centi: u64,
    /// Time since the job started, in microseconds.
    pub elapsed_us: u64,
    /// Estimated time left, in microseconds; unknown at 0 and at completion.
    pub remaining_us: Option<u64>,
    /// Media time reached, in microseconds.
    pub current_time_us: u64,
    /// Media duration, when known.
    pub total_time_us: Option<u64>,
    /// Bytes written so far.
    pub current_size: u64,
    /// Predicted final size, once past five percent.
    pub estimated_size: Option<u64>,
}

impl Default for TranscodeProgress {
    fn default() -> (r: Self)
        ensures
            r == (TranscodeProgress {
                frames_processed: 0,
                total_frames: None,
                progress_permyriad: 0,
                fps_centi: 0,
                elapsed_us: 0,
                remaining_us: None,
                current_time_us: 0,
                total_time_us: None,
                current_size: 0,
                estimated_size: None,
            }),
    {
        TranscodeProgress {
            frames_processed: 0,
            total_frames: None,
            progress_permyriad: 0,
            fps_centi: 0,
            elapsed_us: 0,
            remaining_us: None,
            current_time_us: 0,
            total_time_us: None,
            current_size: 0,
            estimated_size: None,
        }
    }
}

/// What the reader of the engine's output does after a line.
#[derive(Clone, Copy, Debug, PartialEq, Eq, Structural)]
pub enum LineAction {
    /// Keep reading.
    Continue,
    /// A record was closed: publish the new snapshot, then keep reading.
    Publish,
    /// Cancellation was requested: terminate the engine and stop reading.
    Stop,
}

/// The progress state of one running job.
#[derive(Clone, Copy, Debug)]
pub struct ProgressFilter {
    /// Frames encoded so far.
    pub frames_processed: u64,
    /// Expected number of frames; 0 when unknown.
    pub total_frames: u64,
    /// Media duration in microseconds; 0 when unknown.
    pub total_duration_us: u64,
    /// Media time reached, in microseconds.
    pub current_time_us: u64,
    /// Bytes written so far.
    pub current_size: u64,
    /// Size of the input file in bytes.
    pub input_size: u64,
    /// Set once the job is asked to stop.
    pub cancelled: bool,
    /// Highest fraction complete reached, in ten-thousandths.
    pub permyriad: u64,
}

pub open spec fn min_nat(a: nat, b: nat) -> nat {
    if a <= b {
        a
    } else {
        b
    }
}

/// The fraction complete that the counters alone give: media time over
/// duration, else frames over expected frames, clamped to one.
pub open spec fn raw_permyriad(frames: u64, total_frames: u64, time_us: u64, duration_us: u64) -> nat {
    if duration_us > 0 {
        min_nat(time_us as nat * FULL as nat / duration_us as nat, FULL as nat)
    } else if total_frames > 0 {
        min_nat(frames as nat * FULL as nat / total_frames as nat, FULL as nat)
    } else {
        0
    }
}

/// Remaining time: `elapsed / fraction - elapsed`, for a fraction strictly
/// between zero and one.
pub open spec fn spec_remaining(elapsed_us: u64, p: u64) -> Option<u64> {
    if 0 < p && p < FULL {
        Some(min_nat(elapsed_us as nat * (FULL - p) as nat / p as nat, u64::MAX as nat) as u64)
    } else {
        None
    }
}

/// Predicted final size: `current / fraction`, past five percent.
pub open spec fn spec_estimated_size(current: u64, p: u64) -> Option<u64> {
    if p > 500 && current > 0 {
        Some(min_nat(current as nat * FULL as nat / p as nat, u64::MAX as nat) as u64)
    } else {
        None
    }
}

/// Frames per second in hundredths over the elapsed time.
pub open spec fn spec_fps_centi(frames: u64, elapsed_us: u64) -> u64 {
    if elapsed_us > 0 {
        min_nat(frames as nat * 100_000_000 / elapsed_us as nat, u64::MAX as nat) as u64
    } else {
        0
    }
}

impl ProgressFilter {
    /// The stored fraction never exceeds one.
    pub open spec fn wf(&self) -> bool {
        self.permyriad <= FULL
    }

    /// The counters are those of `other`, but for what a call changed.
    pub open spec fn fraction_follows(&self, prev: &ProgressFilter) -> bool {
        &&& self.permyriad >= prev.permyriad
        &&& self.permyriad <= FULL
        &&& self.permyriad >= raw_permyriad(
            self.frames_processed,
            self.total_frames,
            self.current_time_us,
            self.total_duration_us,
        )
        &&& self.permyriad == prev.permyriad || self.permyriad == raw_permyriad(
            self.frames_processed,
            self.total_frames,
            self.current_time_us,
            self.total_duration_us,
        )
    }

    /// A fresh state for a job of `total_frames` frames lasting
    /// `total_duration_us` microseconds, either unknown.
    pub fn new(total_frames: Option<u64>, total_duration_us: Option<u64>) -> (r: Self)
        ensures
            r.wf(),
            r.frames_processed == 0,
            r.total_frames == match total_frames {
                Some(n) => n,
                None => 0,
            },
            r.total_duration_us == match total_duration_us {
                Some(n) => n,
                None => 0,
            },
            r.current_time_us == 0,
            r.current_size == 0,
            r.input_size == 0,
            !r.cancelled,
            r.permyriad == 0,
    {
        ProgressFilter {
            frames_processed: 0,
            total_frames: match total_frames {
                Some(n) => n,
                None => 0,
            },
            total_duration_us: match total_duration_us {
                Some(n) => n,
                None => 0,
            },
            current_time_us: 0,
            current_size: 0,
            input_size: 0,
            cancelled: false,
            permyriad: 0,
        }
    }

    fn raw_fraction(&self) -> (r: u64)
        ensures
            r == raw_permyriad(
                self.frames_processed,
                self.total_frames,
                self.current_time_us,
                self.total_duration_us,
            ),
            r <= FULL,
    {
        if self.total_duration_us > 0 {
            let q = self.current_time_us as u128 * FULL as u128 / self.total_duration_us as u128;
            if q > FULL as u128 {
                FULL
            } else {
                q as u64
            }
        } else if self.total_frames > 0 {
            let q = self.frames_processed as u128 * FULL as u128 / self.total_frames as u128;
            if q > FULL as u128 {
                FULL
            } else {
                q as u64
            }
        } else {
            0
        }
    }

    /// Raises the stored fraction to what the counters give, never lowering it.
    fn refresh(&mut self)
        requires
            old(self).wf(),
        ensures
            final(self).fraction_follows(old(self)),
            final(self).frames_processed == old(self).frames_processed,
            final(self).total_frames == old(self).total_frames,
            final(self).total_duration_us == old(self).total_duration_us,
            final(self).current_time_us == old(self).current_time_us,
            final(self).current_size == old(self).current_size,
            final(self).input_size == old(self).input_size,
            final(self).cancelled == old(self).cancelled,
    {
        let raw = self.raw_fraction();
        if raw > self.permyriad {
            self.permyriad = raw;
        }
    }

    /// Records the size of the input file.
    pub fn set_input_size(&mut self, size: u64)
        requires
            old(self).wf(),
        ensures
            *final(self) == (ProgressFilter { input_size: size, ..*old(self) }),
            final(self).wf(),
    {
        self.input_size = size;
    }

    /// Records the bytes written so far.
    pub fn set_current_size(&mut self, size: u64)
        requires
            old(self).wf(),
        ensures
            *final(self) == (ProgressFilter { current_size: size, ..*old(self) }),
            final(self).wf(),
    {
        self.current_size = size;
    }

    /// Whether the job was asked to stop.
    pub fn cancel_flag(&self) -> (r: bool)
        ensures
            r == self.cancelled,
    {
        self.cancelled
    }

    /// Counts one more frame, at media time `pts_us` when it is known.
    pub fn on_frame(&mut self, pts_us: Option<u64>)
        requires
            old(self).wf(),
            old(self).frames_processed < u64::MAX,
        ensures
            final(self).fraction_follows(old(self)),
            final(self).frames_processed == old(self).frames_processed + 1,
            final(self).current_time_us == match pts_us {
                Some(t) => t,
                None => old(self).current_time_us,
            },
            final(self).total_frames == old(self).total_frames,
            final(self).total_duration_us == old(self).total_duration_us,
            final(self).current_size == old(self).current_size,
            final(self).input_size == old(self).input_size,
            final(self).cancelled == old(self).cancelled,
    {
        self.frames_processed = self.frames_processed + 1;
        if let Some(pts) = pts_us {
            self.current_time_us = pts;
        }
        self.refresh();
    }

    /// Sets the expected number of frames.
    pub fn set_total_frames(&mut self, frames: u64)
        requires
            old(self).wf(),
        ensures
            final(self).fraction_follows(old(self)),
            final(self).total_frames == frames,
            final(self).frames_processed == old(self).frames_processed,
            final(self).total_duration_us == old(self).total_duration_us,
            final(self).current_time_us == old(self).current_time_us,
            final(self).current_size == old(self).current_size,
            final(self).input_size == old(self).input_size,
            final(self).cancelled == old(self).cancelled,
    {
        self.total_frames = frames;
        self.refresh();
    }

    /// Sets the media duration in microseconds.
    pub fn set_total_duration(&mut self, duration_us: u64)
        requires
            old(self).wf(),
        ensures
            final(self).fraction_follows(old(self)),
            final(self).total_duration_us == duration_us,
            final(self).frames_processed == old(self).frames_processed,
            final(self).total_frames == old(self).total_frames,
            final(self).current_time_us == old(self).current_time_us,
            final(self).current_size == old(self).current_size,
            final(self).input_size == old(self).input_size,
            final(self).cancelled == old(self).cancelled,
    {
        self.total_duration_us = duration_us;
        self.refresh();
    }

    /// Takes a closed protocol record: the running frame count, and the
    /// media time and output size when the record carries them.
    pub fn apply_record(&mut self, info: &FfmpegProgressInfo)
        requires
            old(self).wf(),
        ensures
            final(self).fraction_follows(old(self)),
            final(self).frames_processed == info.frame,
            final(self).current_time_us == match info.out_time_us {
                Some(t) => t,
                None => old(self).current_time_us,
            },
            final(self).current_size == match info.total_size {
                Some(n) => n,
                None => old(self).current_size,
            },
            final(self).total_frames == old(self).total_frames,
            final(self).total_duration_us == old(self).total_duration_us,
            final(self).input_size == old(self).input_size,
            final(self).cancelled == old(self).cancelled,
    {
        self.frames_processed = info.frame;
        if let Some(t) = info.out_time_us {
            self.current_time_us = t;
        }
        if let Some(n) = info.total_size {
            self.current_size = n;
        }
        self.refresh();
    }

    /// Handles one line of the engine's progress output. A requested
    /// cancellation stops the job before the line is read; otherwise the
    /// line goes into the pending record, and a closed record that carries
    /// the media time updates the counters.
    pub fn on_line(&mut self, info: &mut FfmpegProgressInfo, line: &str, cancel_requested: bool) -> (r:
        LineAction)
        requires
            old(self).wf(),
        ensures
            final(self).wf(),
            final(self).permyriad >= old(self).permyriad,
            (cancel_requested || old(self).cancelled) ==> r == LineAction::Stop && final(self).cancelled
                && *final(info) == *old(info) && final(self).permyriad == old(self).permyriad,
            !(cancel_requested || old(self).cancelled) ==> ({
                let (rec, closed) = spec_apply_line(*old(info), line@);
                &&& !final(self).cancelled
                &&& closed ==> r == LineAction::Publish && *final(info) == (FfmpegProgressInfo {
                    frame: rec.frame,
                    fps_centi: rec.fps_centi,
                    out_time_us: None,
                    total_size: None,
                    finished: false,
                })
                &&& !closed ==> r == LineAction::Continue && *final(info) == rec && *final(self)
                    == *old(self)
                &&& closed && rec.out_time_us.is_some() ==> final(self).fraction_follows(old(self))
                    && final(self).frames_processed == rec.frame && final(self).current_time_us
                    == rec.out_time_us.unwrap() && final(self).current_size == (match rec.total_size {
                    Some(n) => n,
                    None => old(self).current_size,
                }) && final(self).total_frames == old(self).total_frames
                    && final(self).total_duration_us == old(self).total_duration_us
                    && final(self).input_size == old(self).input_size
                &&& closed && rec.out_time_us.is_none() ==> *final(self) == *old(self)
            }),
    {
        if cancel_requested || self.cancelled {
            self.cancelled = true;
            return LineAction::Stop;
        }
        let closed = info.parse_progress_line(line);
        if !closed {
            return LineAction::Continue;
        }
        if info.is_valid() {
            self.apply_record(info);
        }
        *info = info.next_record();
        LineAction::Publish
    }

    /// The snapshot at `elapsed_us` microseconds after the job started.
    pub fn get_progress(&self, elapsed_us: u64) -> (r: TranscodeProgress)
        requires
            self.wf(),
        ensures
            r.frames_processed == self.frames_processed,
            r.total_frames == (if self.total_frames > 0 {
                Some(self.total_frames)
            } else {
                None
            }),
            r.progress_permyriad == self.permyriad,
            r.fps_centi == spec_fps_centi(self.frames_processed, elapsed_us),
            r.elapsed_us == elapsed_us,
            r.remaining_us == spec_remaining(elapsed_us, self.permyriad),
            r.current_time_us == self.current_time_us,
            r.total_time_us == (if self.total_duration_us > 0 {
                Some(self.total_duration_us)
            } else {
                None
            }),
            r.current_size == self.current_size,
            r.estimated_size == spec_estimated_size(self.current_size, self.permyriad),
    {
        let p = self.permyriad;
        let fps_centi = if elapsed_us > 0 {
            let q = self.frames_processed as u128 * 100_000_000u128 / elapsed_us as u128;
            if q > u64::MAX as u128 {
                u64::MAX
            } else {
                q as u64
            }
        } else {
            0
        };
        let remaining_us = if 0 < p && p < FULL {
            let e = elapsed_us as u128;
            let d = (FULL - p) as u128;
            assert(e * d <= 0xffff_ffff_ffff_ffffu128 * 10000u128) by (nonlinear_arith)
                requires
                    e <= 0xffff_ffff_ffff_ffffu128,
                    d <= 10000,
            ;
            let q = e * d / p as u128;
            Some(
                if q > u64::MAX as u128 {
                    u64::MAX
                } else {
                    q as u64
                },
            )
        } else {
            None
        };
        let estimated_size = if p > 500 && self.current_size > 0 {
            let q = self.current_size as u128 * FULL as u128 / p as u128;
            Some(
                if q > u64::MAX as u128 {
                    u64::MAX
                } else {
                    q as u64
                },
            )
        } else {
            None
        };
        TranscodeProgress {
            frames_processed: self.frames_processed,
            total_frames: if self.total_frames > 0 {
                Some(self.total_frames)
            } else {
                None
            },
            progress_permyriad: p,
            fps_centi,
            elapsed_us,
            remaining_us,
            current_time_us: self.current_time_us,
            total_time_us: if self.total_duration_us > 0 {
                Some(self.total_duration_us)
            } else {
                None
            },
            current_size: self.current_size,
            estimated_size,
        }
    }

    /// Asks the job to stop.
    pub fn cancel(&mut self)
        requires
            old(self).wf(),
        ensures
            *final(self) == (ProgressFilter { cancelled: true, ..*old(self) }),
            final(self).wf(),
    {
        self.cancelled = true;
    }

    /// Whether the job was asked to stop.
    pub fn is_cancelled(&self) -> (r: bool)
        ensures
            r == self.cancelled,
    {
        self.cancelled
    }
}

/// For a fraction in `0..=10000`, the remaining time is unknown exactly
/// when the fraction is zero or one, and known (never negative) otherwise.
pub proof fn lemma_remaining_unknown_at_ends(elapsed_us: u64, p: u64)
    requires
        p <= FULL,
    ensures
        (p == 0 || p == FULL) ==> spec_remaining(elapsed_us, p) is None,
        (0 < p && p < FULL) ==> spec_remaining(elapsed_us, p) is Some,
{
}

// ---------------------------------------------------------------------------
// Display helpers
// ---------------------------------------------------------------------------

/// Two digits, with a leading zero below ten.
pub open spec fn pad2(n: nat) -> Seq<char> {
    if n < 10 {
        "0"@ + decimal(n)
    } else {
        decimal(n)
    }
}

/// `h:mm:ss` from one hour on, else `mm:ss`.
pub open spec fn spec_format_duration(secs: nat) -> Seq<char> {
    let h = secs / 3600;
    let m = (secs % 3600) / 60;
    let s = secs % 60;
    if h > 0 {
        decimal(h) + ":"@ + pad2(m) + ":"@ + pad2(s)
    } else {
        pad2(m) + ":"@ + pad2(s)
    }
}

fn pad2_string(n: u64) -> (r: String)
    ensures
        r@ == pad2(n as nat),
{
    let d = decimal_string(n);
    if n < 10 {
        join2("0", d.as_str())
    } else {
        d
    }
}

/// A duration given in whole seconds, as a clock reading.
pub fn format_duration(total_secs: u64) -> (r: String)
    ensures
        r@ == spec_format_duration(total_secs as nat),
{
    let hours = total_secs / 3600;
    let minutes = (total_secs % 3600) / 60;
    let seconds = total_secs % 60;
    let m = pad2_string(minutes);
    let sec = pad2_string(seconds);
    if hours > 0 {
        let h = decimal_string(hours);
        let mut out = join3(h.as_str(), ":", m.as_str());
        out.append(":");
        out.append(sec.as_str());
        out
    } else {
        join3(m.as_str(), ":", sec.as_str())
    }
}

/// `bytes * 100 / unit` rounded to the nearest integer, ties to even.
pub open spec fn hundredths(bytes: nat, unit: nat) -> nat
    recommends
        unit > 0,
{
    let q = bytes * 100 / unit;
    let r = bytes * 100 % unit;
    if 2 * r > unit || (2 * r == unit && q % 2 == 1) {
        q + 1
    } else {
        q
    }
}

/// A count of hundredths written with two decimals.
pub open spec fn two_decimals(h: nat) -> Seq<char> {
    decimal(h / 100) + "."@ + pad2(h % 100)
}

/// A byte count in B, KB, MB or GB (binary units), two decimals above bytes.
pub open spec fn spec_format_size(bytes: nat) -> Seq<char> {
    let kb: nat = 1024;
    let mb: nat = 1024 * 1024;
    let gb: nat = 1024 * 1024 * 1024;
    if bytes >= gb {
        two_decimals(hundredths(bytes, gb)) + " GB"@
    } else if bytes >= mb {
        two_decimals(hundredths(bytes, mb)) + " MB"@
    } else if bytes >= kb {
        two_decimals(hundredths(bytes, kb)) + " KB"@
    } else {
        decimal(bytes) + " B"@
    }
}

fn scaled(bytes: u64, unit: u64, label: &str) -> (r: String)
    requires
        unit > 0,
    ensures
        r@ == two_decimals(hundredths(bytes as nat, unit as nat)) + label@,
{
    let b = bytes as u128 * 100;
    let q = b / unit as u128;
    let rem = b % unit as u128;
    let h = if 2 * rem > unit as u128 || (2 * rem == unit as u128 && q % 2 == 1) {
        q + 1
    } else {
        q
    };
    assert(h <= 0xffff_ffff_ffff_ffffu128 * 100 + 1) by (nonlinear_arith)
        requires
            q == b / unit as u128,
            b <= 0xffff_ffff_ffff_ffffu128 * 100,
            unit >= 1,
            h <= q + 1,
    ;
    let whole = decimal_string((h / 100) as u64);
    let frac = pad2_string((h % 100) as u64);
    let mut out = join3(whole.as_str(), ".", frac.as_str());
    out.append(label);
    out
}

/// A byte count for display.
pub fn format_size(bytes: u64) -> (r: String)
    ensures
        r@ == spec_format_size(bytes as nat),
{
    let kb: u64 = 1024;
    let mb: u64 = 1024 * 1024;
    let gb: u64 = 1024 * 1024 * 1024;
    if bytes >= gb {
        scaled(bytes, gb, " GB")
    } else if bytes >= mb {
        scaled(bytes, mb, " MB")
    } else if bytes >= kb {
        scaled(bytes, kb, " KB")
    } else {
        let d = decimal_string(bytes);
        join2(d.as_str(), " B")
    }
}

/// How much motion a source has, which drives how well it compresses.
#[derive(Clone, Copy, Debug, PartialEq, Eq, Structural)]
pub enum ContentType {
    /// Slides and still pictures.
    Static,
    /// Animation.
    Anime,
    /// Ordinary live action.
    Normal,
    /// Games and sports.
    HighMotion,
    /// Desktop capture.
    ScreenRecord,
}

impl ContentType {
    /// Label shown to the user.
    pub fn display_name(&self) -> (r: &'static str)
        ensures
            r@ == (match self {
                ContentType::Static => "静止画/スライド"@,
                ContentType::ScreenRecord => "画面録画"@,
                ContentType::Anime => "アニメ"@,
                ContentType::Normal => "実写（通常）"@,
                ContentType::HighMotion => "ゲーム/スポーツ"@,
            }),
    {
        match self {
            ContentType::Static => "静止画/スライド",
            ContentType::ScreenRecord => "画面録画",
            ContentType::Anime => "アニメ",
            ContentType::Normal => "実写（通常）",
            ContentType::HighMotion => "ゲーム/スポーツ",
        }
    }

    /// Every variant, from least to most motion.
    pub fn all() -> (r: &'static [ContentType])
        ensures
            r@ == seq![
                ContentType::Static,
                ContentType::ScreenRecord,
                ContentType::Anime,
                ContentType::Normal,
                ContentType::HighMotion,
            ],
    {
        &[
            ContentType::Static,
            ContentType::ScreenRecord,
            ContentType::Anime,
            ContentType::Normal,
            ContentType::HighMotion,
        ]
    }
}

impl Default for ContentType {
    fn default() -> (r: Self)
        ensures
            r == ContentType::Normal,
    {
        ContentType::Normal
    }
}

} // verus!
