//! Hardware-acceleration categories and the choice of a concrete encoder.
use vstd::prelude::*;

use crate::job::strs;
use crate::preset::{spec_encoder_name, VideoCodec};
use crate::text::{
    lines_of, owned, split_lines, split_words, trim, trimmed_of, words_of,
};

verus! {

/// Hardware-acceleration preference, or the category actually used.
#[derive(Clone, Copy, Debug, PartialEq, Eq, Structural)]
pub enum HwAccelType {
    /// Pick the best available accelerator.
    Auto,
    /// NVIDIA NVENC.
    Nvenc,
    /// Intel Quick Sync Video.
    Qsv,
    /// AMD AMF.
    Amf,
    /// Software encoding.
    Software,
}

impl HwAccelType {
    pub open spec fn spec_display_name(self) -> Seq<char> {
        match self {
            HwAccelType::Auto => "自動検出"@,
            HwAccelType::Nvenc => "NVIDIA NVENC"@,
            HwAccelType::Qsv => "Intel QSV"@,
            HwAccelType::Amf => "AMD AMF"@,
            HwAccelType::Software => "ソフトウェア"@,
        }
    }

    /// Label shown to the user.
    pub fn display_name(&self) -> (r: &'static str)
        ensures
            r@ == self.spec_display_name(),
    {
        match self {
            HwAccelType::Auto => "自動検出",
            HwAccelType::Nvenc => "NVIDIA NVENC",
            HwAccelType::Qsv => "Intel QSV",
            HwAccelType::Amf => "AMD AMF",
            HwAccelType::Software => "ソフトウェア",
        }
    }

    /// Every variant, in menu order.
    pub fn all() -> (r: &'static [HwAccelType])
        ensures
            r@ == seq![
                HwAccelType::Auto,
                HwAccelType::Nvenc,
                HwAccelType::Qsv,
                HwAccelType::Amf,
                HwAccelType::Software,
            ],
    {
        &[
            HwAccelType::Auto,
            HwAccelType::Nvenc,
            HwAccelType::Qsv,
            HwAccelType::Amf,
            HwAccelType::Software,
        ]
    }

    /// Whether this is one of the three hardware vendors.
    pub open spec fn is_hardware(self) -> bool {
        self is Nvenc || self is Qsv || self is Amf
    }
}

impl Default for HwAccelType {
    fn default() -> (r: Self)
        ensures
            r == HwAccelType::Auto,
    {
        HwAccelType::Auto
    }
}


/// Detection of the accelerators of this machine and choice of encoders.
pub struct HwAccelDetector;

/// The accelerators found, and the one recommended.
#[derive(Clone, Debug)]
pub struct HwAccelInfo {
    /// Every usable category; `Software` always comes last.
    pub available: Vec<HwAccelType>,
    /// The preferred category among `available`.
    pub recommended: HwAccelType,
}

/// Categories detected, in priority order, with software last.
pub open spec fn spec_available(nvenc: bool, qsv: bool, amf: bool) -> Seq<HwAccelType> {
    (if nvenc {
        seq![HwAccelType::Nvenc]
    } else {
        seq![]
    }) + (if qsv {
        seq![HwAccelType::Qsv]
    } else {
        seq![]
    }) + (if amf {
        seq![HwAccelType::Amf]
    } else {
        seq![]
    }) + seq![HwAccelType::Software]
}

/// Priority NVENC > QSV > AMF > software: the first detected wins.
pub open spec fn spec_recommended(nvenc: bool, qsv: bool, amf: bool) -> HwAccelType {
    if nvenc {
        HwAccelType::Nvenc
    } else if qsv {
        HwAccelType::Qsv
    } else if amf {
        HwAccelType::Amf
    } else {
        HwAccelType::Software
    }
}

/// NVENC is detected when the NVIDIA driver is present and its H.264
/// encoder is usable; QSV and AMF when their H.264 encoder is usable.
/// `usable` holds the encoders that the capability registry found usable
/// (listed by the engine, and for hardware encoders a successful trial).
pub open spec fn spec_detected(nvidia_present: bool, usable: Seq<Seq<char>>) -> (bool, bool, bool) {
    (
        nvidia_present && usable.contains("h264_nvenc"@),
        usable.contains("h264_qsv"@),
        usable.contains("h264_amf"@),
    )
}

/// Software encoders to try, in order, when the preferred one is unusable.
pub open spec fn spec_fallbacks(codec: VideoCodec) -> Seq<Seq<char>> {
    match codec {
        VideoCodec::H264 => seq!["libx264"@],
        VideoCodec::H265 => seq!["libx265"@],
        VideoCodec::Vp9 => seq!["libvpx-vp9"@],
        VideoCodec::Av1 => seq!["libsvtav1"@, "libaom-av1"@],
    }
}

/// The first candidate that `usable` holds.
pub open spec fn first_usable(cands: Seq<Seq<char>>, usable: Seq<Seq<char>>) -> Option<Seq<char>>
    decreases cands.len(),
{
    if cands.len() == 0 {
        None
    } else if usable.contains(cands[0]) {
        Some(cands[0])
    } else {
        first_usable(cands.drop_first(), usable)
    }
}

/// The encoder and category resolved for a codec and a preference: the
/// preferred encoder if usable, else the first usable fallback in software
/// mode, else the first fallback anyway.
pub open spec fn spec_resolve(codec: VideoCodec, hw: HwAccelType, usable: Seq<Seq<char>>) -> (
    Seq<char>,
    HwAccelType,
) {
    let preferred = spec_encoder_name(codec, hw);
    if usable.contains(preferred) {
        (preferred, hw)
    } else {
        match first_usable(spec_fallbacks(codec), usable) {
            Some(e) => (e, HwAccelType::Software),
            None => (spec_fallbacks(codec)[0], HwAccelType::Software),
        }
    }
}

/// Whether the encoder names `usable` holds contain `name`.
fn holds(usable: &Vec<String>, name: &str) -> (r: bool)
    ensures
        r == strs(usable@).contains(name@),
{
    let target = owned(name);
    let mut i: usize = 0;
    while i < usable.len()
        invariant
            i <= usable.len(),
            target@ == name@,
            forall|j: int| 0 <= j < i ==> strs(usable@)[j] != name@,
        decreases usable.len() - i,
    {
        if usable[i] == target {
            assert(strs(usable@)[i as int] == name@);
            return true;
        }
        i = i + 1;
    }
    proof {
        if strs(usable@).contains(name@) {
            let k = choose|k: int| 0 <= k < strs(usable@).len() && strs(usable@)[k] == name@;
            assert(strs(usable@)[k] != name@);
        }
    }
    false
}

impl HwAccelDetector {
    /// The accelerators of this machine, from whether the NVIDIA driver is
    /// present and which encoders the capability registry found usable.
    pub fn detect(nvidia_present: bool, usable: &Vec<String>) -> (r: HwAccelInfo)
        ensures
            ({
                let d = spec_detected(nvidia_present, strs(usable@));
                &&& r.available@ == spec_available(d.0, d.1, d.2)
                &&& r.recommended == spec_recommended(d.0, d.1, d.2)
                &&& r.recommended == r.available@[0]
            }),
    {
        let nvenc = Self::detect_nvenc(nvidia_present, usable);
        let qsv = Self::detect_qsv(usable);
        let amf = Self::detect_amf(usable);
        let mut available: Vec<HwAccelType> = Vec::new();
        if nvenc {
            available.push(HwAccelType::Nvenc);
        }
        if qsv {
            available.push(HwAccelType::Qsv);
        }
        if amf {
            available.push(HwAccelType::Amf);
        }
        available.push(HwAccelType::Software);
        let recommended = if nvenc {
            HwAccelType::Nvenc
        } else if qsv {
            HwAccelType::Qsv
        } else if amf {
            HwAccelType::Amf
        } else {
            HwAccelType::Software
        };
        assert(available@ =~= spec_available(nvenc, qsv, amf));
        HwAccelInfo { available, recommended }
    }

    fn detect_nvenc(nvidia_present: bool, usable: &Vec<String>) -> (r: bool)
        ensures
            r == (nvidia_present && strs(usable@).contains("h264_nvenc"@)),
    {
        nvidia_present && holds(usable, "h264_nvenc")
    }

    fn detect_qsv(usable: &Vec<String>) -> (r: bool)
        ensures
            r == strs(usable@).contains("h264_qsv"@),
    {
        holds(usable, "h264_qsv")
    }

    fn detect_amf(usable: &Vec<String>) -> (r: bool)
        ensures
            r == strs(usable@).contains("h264_amf"@),
    {
        holds(usable, "h264_amf")
    }

    /// `hwaccel` itself unless it is `Auto`, which resolves to the
    /// recommended category of `detect`.
    pub fn resolve_auto(hwaccel: HwAccelType, nvidia_present: bool, usable: &Vec<String>) -> (r: HwAccelType)
        ensures
            hwaccel != HwAccelType::Auto ==> r == hwaccel,
            hwaccel == HwAccelType::Auto ==> ({
                let d = spec_detected(nvidia_present, strs(usable@));
                r == spec_recommended(d.0, d.1, d.2)
            }),
    {
        if hwaccel != HwAccelType::Auto {
            return hwaccel;
        }
        Self::detect(nvidia_present, usable).recommended
    }

    /// The H.264 encoders whose usability decides which accelerators are
    /// detected.
    pub fn detection_encoders() -> (r: Vec<String>)
        ensures
            strs(r@) == seq!["h264_nvenc"@, "h264_qsv"@, "h264_amf"@],
    {
        let r = vec![owned("h264_nvenc"), owned("h264_qsv"), owned("h264_amf")];
        assert(strs(r@) =~= seq!["h264_nvenc"@, "h264_qsv"@, "h264_amf"@]);
        r
    }

    fn get_fallback_encoders(video_codec: &VideoCodec) -> (r: Vec<&'static str>)
        ensures
            r@.len() == spec_fallbacks(*video_codec).len(),
            forall|i: int| 0 <= i < r@.len() ==> #[trigger] r@[i]@ == spec_fallbacks(*video_codec)[i],
    {
        match video_codec {
            VideoCodec::H264 => vec!["libx264"],
            VideoCodec::H265 => vec!["libx265"],
            VideoCodec::Vp9 => vec!["libvpx-vp9"],
            VideoCodec::Av1 => vec!["libsvtav1", "libaom-av1"],
        }
    }

    /// The encoder to run for `video_codec` under `hwaccel`, given the names
    /// of the encoders that passed the availability test, with the
    /// acceleration category actually used.
    pub fn get_available_encoder(video_codec: &VideoCodec, hwaccel: &HwAccelType, usable: &Vec<String>) -> (r:
        (String, HwAccelType))
        ensures
            (r.0@, r.1) == spec_resolve(*video_codec, *hwaccel, strs(usable@)),
    {
        let preferred = video_codec.encoder_name(hwaccel);
        if holds(usable, preferred) {
            return (owned(preferred), *hwaccel);
        }
        let fallbacks = Self::get_fallback_encoders(video_codec);
        let mut i: usize = 0;
        assert(spec_fallbacks(*video_codec).skip(0) =~= spec_fallbacks(*video_codec));
        while i < fallbacks.len()
            invariant
                i <= fallbacks.len(),
                !strs(usable@).contains(spec_encoder_name(*video_codec, *hwaccel)),
                fallbacks@.len() == spec_fallbacks(*video_codec).len(),
                forall|k: int| 0 <= k < fallbacks@.len() ==> #[trigger] fallbacks@[k]@ == spec_fallbacks(*video_codec)[k],
                first_usable(spec_fallbacks(*video_codec), strs(usable@)) == first_usable(
                    spec_fallbacks(*video_codec).skip(i as int),
                    strs(usable@),
                ),
            decreases fallbacks.len() - i,
        {
            let cand = fallbacks[i];
            let ghost rest = spec_fallbacks(*video_codec).skip(i as int);
            assert(rest[0] == cand@);
            assert(rest.drop_first() =~= spec_fallbacks(*video_codec).skip(i as int + 1));
            if holds(usable, cand) {
                assert(rest.len() > 0);
                assert(first_usable(rest, strs(usable@)) == Some(cand@));
                return (owned(cand), HwAccelType::Software);
            }
            i = i + 1;
        }
        assert(first_usable(spec_fallbacks(*video_codec).skip(i as int), strs(usable@)) is None);
        (owned(fallbacks[0]), HwAccelType::Software)
    }
}

/// The encoder that one line of the engine's encoder listing names, if the
/// line is a video encoder entry (`V.....  name  description`).
pub open spec fn listed_name(line: Seq<char>) -> Option<Seq<char>> {
    let t = trimmed_of(line);
    if t.len() > 7 && t[0] == 'V' && words_of(t).len() >= 2 {
        Some(words_of(t)[1])
    } else {
        None
    }
}

/// The distinct encoders named by the first lines of a listing, in order of
/// first appearance.
pub open spec fn encoder_set(lines: Seq<Seq<char>>) -> Seq<Seq<char>>
    decreases lines.len(),
{
    if lines.len() == 0 {
        seq![]
    } else {
        let prev = encoder_set(lines.drop_last());
        match listed_name(lines.last()) {
            Some(n) => if prev.contains(n) {
                prev
            } else {
                prev.push(n)
            },
            None => prev,
        }
    }
}

/// Software encoders work whenever the engine lists them.
pub open spec fn spec_is_software_encoder(e: Seq<char>) -> bool {
    e == "libx264"@ || e == "libx265"@ || e == "libvpx-vp9"@ || e == "libsvtav1"@ || e
        == "libaom-av1"@
}

/// What is known of an encoder before it is tried.
#[derive(Clone, Copy, Debug, PartialEq, Eq, Structural)]
pub enum EncoderCheck {
    /// The engine does not list it: unusable.
    NotListed,
    /// A listed software encoder: usable.
    Usable,
    /// A listed hardware encoder: usable only if a one-frame trial encode succeeds.
    NeedsTrial,
}

/// The arguments of the one-frame trial encode of `encoder` into a null sink.
pub open spec fn spec_trial_args(encoder: Seq<char>) -> Seq<Seq<char>> {
    seq![
        "-f"@,
        "lavfi"@,
        "-i"@,
        "nullsrc=s=256x256:d=0.1"@,
        "-c:v"@,
        encoder,
        "-frames:v"@,
        "1"@,
        "-f"@,
        "null"@,
        "-"@,
    ]
}

/// Every usable encoder set gives the same resolution as any other set with
/// the same members: the choice depends on the codec, the preference and
/// the availability facts only.
pub proof fn lemma_resolve_deterministic(
    codec: VideoCodec,
    hw: HwAccelType,
    u1: Seq<Seq<char>>,
    u2: Seq<Seq<char>>,
)
    requires
        forall|e: Seq<char>| u1.contains(e) <==> u2.contains(e),
    ensures
        spec_resolve(codec, hw, u1) == spec_resolve(codec, hw, u2),
{
    lemma_first_usable_same(spec_fallbacks(codec), u1, u2);
}

proof fn lemma_first_usable_same(cands: Seq<Seq<char>>, u1: Seq<Seq<char>>, u2: Seq<Seq<char>>)
    requires
        forall|e: Seq<char>| u1.contains(e) <==> u2.contains(e),
    ensures
        first_usable(cands, u1) == first_usable(cands, u2),
    decreases cands.len(),
{
    if cands.len() > 0 {
        lemma_first_usable_same(cands.drop_first(), u1, u2);
    }
}

impl HwAccelDetector {
    /// The distinct encoders that the engine's encoder listing names.
    pub fn get_available_encoders(encoder_listing: &str) -> (r: Vec<String>)
        ensures
            strs(r@) == encoder_set(lines_of(encoder_listing@)),
    {
        Self::fetch_available_encoders(encoder_listing)
    }

    fn fetch_available_encoders(encoder_listing: &str) -> (r: Vec<String>)
        ensures
            strs(r@) == encoder_set(lines_of(encoder_listing@)),
    {
        let lines = split_lines(encoder_listing);
        let ghost all = lines_of(encoder_listing@);
        let mut encoders: Vec<String> = Vec::new();
        let mut i: usize = 0;
        assert(all.take(0) =~= seq![]);
        assert(strs(encoders@) =~= seq![]);
        while i < lines.len()
            invariant
                i <= lines.len(),
                lines@.len() == all.len(),
                all == lines_of(encoder_listing@),
                forall|k: int| 0 <= k < lines@.len() ==> #[trigger] lines@[k]@ == all[k],
                strs(encoders@) == encoder_set(all.take(i as int)),
            decreases lines.len() - i,
        {
            let ghost before = all.take(i as int);
            assert(all.take(i as int + 1).drop_last() =~= before);
            assert(all.take(i as int + 1).last() == lines@[i as int]@);
            let trimmed = trim(lines[i].as_str());
            let chars = crate::text::chars_of(trimmed.as_str());
            if chars.len() > 7 && chars[0] == 'V' {
                let parts = split_words(trimmed.as_str());
                if parts.len() >= 2 {
                    let name = parts[1].as_str();
                    if !holds(&encoders, name) {
                        crate::job::emit_owned(&mut encoders, owned(name));
                    }
                }
            }
            i = i + 1;
        }
        assert(all.take(i as int) =~= all);
        encoders
    }

    /// Whether `encoder` is one of the software encoders.
    pub fn is_software_encoder(encoder: &str) -> (r: bool)
        ensures
            r == spec_is_software_encoder(encoder@),
    {
        let e = owned(encoder);
        e == owned("libx264") || e == owned("libx265") || e == owned("libvpx-vp9") || e == owned(
            "libsvtav1",
        ) || e == owned("libaom-av1")
    }

    /// What is known of `encoder` from the engine's list of encoders alone.
    pub fn precheck_encoder(encoder: &str, listed: &Vec<String>) -> (r: EncoderCheck)
        ensures
            !strs(listed@).contains(encoder@) ==> r == EncoderCheck::NotListed,
            strs(listed@).contains(encoder@) && spec_is_software_encoder(encoder@) ==> r
                == EncoderCheck::Usable,
            strs(listed@).contains(encoder@) && !spec_is_software_encoder(encoder@) ==> r
                == EncoderCheck::NeedsTrial,
    {
        if !holds(listed, encoder) {
            EncoderCheck::NotListed
        } else if Self::is_software_encoder(encoder) {
            EncoderCheck::Usable
        } else {
            EncoderCheck::NeedsTrial
        }
    }

    /// The engine arguments of the trial encode of `encoder`.
    pub fn trial_args(encoder: &str) -> (r: Vec<String>)
        ensures
            strs(r@) == spec_trial_args(encoder@),
    {
        let r = vec![
            owned("-f"),
            owned("lavfi"),
            owned("-i"),
            owned("nullsrc=s=256x256:d=0.1"),
            owned("-c:v"),
            owned(encoder),
            owned("-frames:v"),
            owned("1"),
            owned("-f"),
            owned("null"),
            owned("-"),
        ];
        assert(strs(r@) =~= spec_trial_args(encoder@));
        r
    }

    /// The encoders worth testing for `video_codec` under `hwaccel`: the
    /// preferred one, then the software fallbacks in order.
    pub fn encoder_candidates(video_codec: &VideoCodec, hwaccel: &HwAccelType) -> (r: Vec<String>)
        ensures
            strs(r@) == seq![spec_encoder_name(*video_codec, *hwaccel)] + spec_fallbacks(*video_codec),
    {
        let mut r: Vec<String> = Vec::new();
        crate::job::emit_owned(&mut r, owned(video_codec.encoder_name(hwaccel)));
        let fallbacks = Self::get_fallback_encoders(video_codec);
        let mut i: usize = 0;
        while i < fallbacks.len()
            invariant
                i <= fallbacks.len(),
                fallbacks@.len() == spec_fallbacks(*video_codec).len(),
                forall|k: int| 0 <= k < fallbacks@.len() ==> #[trigger] fallbacks@[k]@ == spec_fallbacks(*video_codec)[k],
                strs(r@) == seq![spec_encoder_name(*video_codec, *hwaccel)] + spec_fallbacks(*video_codec).take(i as int),
            decreases fallbacks.len() - i,
        {
            crate::job::emit_owned(&mut r, owned(fallbacks[i]));
            assert(spec_fallbacks(*video_codec).take(i as int + 1) =~= spec_fallbacks(*video_codec).take(i as int).push(fallbacks@[i as int]@));
            i = i + 1;
        }
        assert(spec_fallbacks(*video_codec).take(i as int) =~= spec_fallbacks(*video_codec));
        r
    }
}

} // verus!
