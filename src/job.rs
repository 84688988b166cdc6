//! The command compiler: one transcode job's settings become the engine's
//! argument list.
use vstd::prelude::*;

use crate::hwaccel::{spec_resolve, HwAccelDetector, HwAccelType};
use crate::preset::{spec_encoder_name, AqMode, AudioCodec, ContainerFormat, RateControlMode, TranscodeSettings, VideoPreset, VideoResolution, X264Tune};
use crate::text::{decimal, decimal_string, join2, join3, owned};

verus! {

/// The characters of each argument.
pub open spec fn strs(v: Seq<String>) -> Seq<Seq<char>> {
    v.map_values(|s: String| s@)
}

/// A bitrate option value: the number of kbit/s followed by `k`.
pub open spec fn kbps(n: nat) -> Seq<char> {
    decimal(n) + "k"@
}

/// A value in tenths written with one decimal, `8` as `0.8`.
pub open spec fn tenths(n: nat) -> Seq<char> {
    decimal(n / 10) + "."@ + decimal(n % 10)
}

/// Decode-side acceleration options; they precede the input.
pub open spec fn spec_hwaccel_args(hw: HwAccelType) -> Seq<Seq<char>> {
    match hw {
        HwAccelType::Nvenc => seq!["-hwaccel"@, "cuda"@],
        HwAccelType::Qsv => seq!["-hwaccel"@, "qsv"@],
        HwAccelType::Amf => seq!["-hwaccel"@, "d3d11va"@],
        _ => seq![],
    }
}

/// The scale filter value for a width and a height.
pub open spec fn scale_filter(w: u32, h: u32) -> Seq<char> {
    "scale="@ + decimal(w as nat) + ":"@ + decimal(h as nat)
}

/// The scale filter, absent when the source resolution is kept.
pub open spec fn spec_scale_args(res: VideoResolution) -> Seq<Seq<char>> {
    if res is Original {
        seq![]
    } else {
        seq!["-vf"@, scale_filter(res.spec_dimensions().0, res.spec_dimensions().1)]
    }
}

/// Generic rate-control options; `hw` picks `-cq` over `-crf` for hardware.
pub open spec fn spec_rate_control_args(s: TranscodeSettings, hw: HwAccelType) -> Seq<Seq<char>> {
    match s.rate_control {
        RateControlMode::Crf => if hw.is_hardware() {
            seq!["-cq"@, decimal(s.crf as nat)]
        } else {
            seq!["-crf"@, decimal(s.crf as nat)]
        },
        RateControlMode::Cbr => seq![
            "-b:v"@,
            kbps(s.target_bitrate as nat),
            "-maxrate"@,
            kbps(s.target_bitrate as nat),
            "-bufsize"@,
            kbps(2 * s.target_bitrate as nat),
        ],
        RateControlMode::Vbr => seq![
            "-b:v"@,
            kbps(s.target_bitrate as nat),
            "-maxrate"@,
            kbps(s.max_bitrate as nat),
            "-bufsize"@,
            kbps(s.max_bitrate as nat),
        ],
        RateControlMode::Cqp => seq!["-qp"@, decimal(s.crf as nat)],
    }
}

/// `seq![flag, value]` when `cond` holds, else nothing.
pub open spec fn opt_pair(cond: bool, flag: Seq<char>, value: Seq<char>) -> Seq<Seq<char>> {
    if cond {
        seq![flag, value]
    } else {
        seq![]
    }
}

pub open spec fn nvenc_preset(p: VideoPreset) -> Seq<char> {
    match p {
        VideoPreset::Ultrafast => "p1"@,
        VideoPreset::Fast => "p3"@,
        VideoPreset::Medium => "p4"@,
        VideoPreset::Slow => "p6"@,
        VideoPreset::Veryslow => "p7"@,
    }
}

pub open spec fn spec_nvenc_rc(s: TranscodeSettings) -> Seq<Seq<char>> {
    match s.rate_control {
        RateControlMode::Crf => seq!["-rc"@, "vbr"@, "-cq"@, decimal(s.crf as nat)],
        RateControlMode::Cbr => seq!["-rc"@, "cbr"@, "-b:v"@, kbps(s.target_bitrate as nat)],
        RateControlMode::Vbr => seq![
            "-rc"@,
            "vbr"@,
            "-b:v"@,
            kbps(s.target_bitrate as nat),
            "-maxrate"@,
            kbps(s.max_bitrate as nat),
        ],
        RateControlMode::Cqp => seq!["-rc"@, "constqp"@, "-qp"@, decimal(s.crf as nat)],
    }
}

/// NVENC options.
pub open spec fn spec_nvenc_args(s: TranscodeSettings) -> Seq<Seq<char>> {
    seq!["-tune"@, s.nvenc_tune.spec_ffmpeg_value()] + spec_nvenc_rc(s) + seq![
        "-preset"@,
        nvenc_preset(s.preset),
        "-multipass"@,
        s.nvenc_multipass.spec_ffmpeg_value(),
    ] + (if s.bframes > 0 {
        seq!["-bf"@, decimal(s.bframes as nat), "-b_ref_mode"@, s.nvenc_b_ref_mode.spec_ffmpeg_value()]
    } else {
        seq![]
    }) + opt_pair(s.lookahead > 0, "-rc-lookahead"@, decimal(s.lookahead as nat)) + (if !(
    s.aq_mode is Disabled) {
        seq!["-spatial-aq"@, "1"@, "-aq-strength"@, decimal(s.aq_strength as nat)]
    } else {
        seq![]
    })
}

pub open spec fn qsv_preset(p: VideoPreset) -> Seq<char> {
    match p {
        VideoPreset::Ultrafast => "veryfast"@,
        VideoPreset::Fast => "faster"@,
        VideoPreset::Medium => "medium"@,
        VideoPreset::Slow => "slower"@,
        VideoPreset::Veryslow => "veryslow"@,
    }
}

pub open spec fn spec_qsv_rc(s: TranscodeSettings) -> Seq<Seq<char>> {
    match s.rate_control {
        RateControlMode::Crf => seq!["-global_quality"@, decimal(s.crf as nat)],
        RateControlMode::Cbr => seq![
            "-b:v"@,
            kbps(s.target_bitrate as nat),
            "-maxrate"@,
            kbps(s.target_bitrate as nat),
        ],
        RateControlMode::Vbr => seq![
            "-b:v"@,
            kbps(s.target_bitrate as nat),
            "-maxrate"@,
            kbps(s.max_bitrate as nat),
        ],
        RateControlMode::Cqp => seq!["-q"@, decimal(s.crf as nat)],
    }
}

/// Quick Sync options after rate control, preset and lookahead.
pub open spec fn spec_qsv_tail(s: TranscodeSettings) -> Seq<Seq<char>> {
    opt_pair(s.qsv_adaptive_i, "-adaptive_i"@, "1"@) + opt_pair(s.qsv_adaptive_b, "-adaptive_b"@, "1"@)
        + opt_pair(s.bframes > 0, "-bf"@, decimal(s.bframes as nat)) + opt_pair(
        s.ref_frames > 0,
        "-refs"@,
        decimal(s.ref_frames as nat),
    )
}

/// Quick Sync options.
pub open spec fn spec_qsv_args(s: TranscodeSettings) -> Seq<Seq<char>> {
    spec_qsv_rc(s) + seq!["-preset"@, qsv_preset(s.preset)] + (if s.qsv_la_depth > 0 {
        seq!["-look_ahead"@, "1"@, "-look_ahead_depth"@, decimal(s.qsv_la_depth as nat)]
    } else {
        seq![]
    }) + spec_qsv_tail(s)
}

pub open spec fn spec_amf_rc(s: TranscodeSettings) -> Seq<Seq<char>> {
    match s.rate_control {
        RateControlMode::Crf => seq![
            "-rc"@,
            "cqp"@,
            "-qp_i"@,
            decimal(s.crf as nat),
            "-qp_p"@,
            decimal(s.crf as nat),
            "-qp_b"@,
            decimal(s.crf as nat + 2),
        ],
        RateControlMode::Cbr => seq!["-rc"@, "cbr"@, "-b:v"@, kbps(s.target_bitrate as nat)],
        RateControlMode::Vbr => seq![
            "-rc"@,
            "vbr_peak"@,
            "-b:v"@,
            kbps(s.target_bitrate as nat),
            "-maxrate"@,
            kbps(s.max_bitrate as nat),
        ],
        RateControlMode::Cqp => seq![
            "-rc"@,
            "cqp"@,
            "-qp_i"@,
            decimal(s.crf as nat),
            "-qp_p"@,
            decimal(s.crf as nat),
        ],
    }
}

/// AMF options.
pub open spec fn spec_amf_args(s: TranscodeSettings) -> Seq<Seq<char>> {
    seq![
        "-usage"@,
        s.amf_usage.spec_ffmpeg_value(),
        "-quality"@,
        s.amf_quality.spec_ffmpeg_value(),
    ] + spec_amf_rc(s) + opt_pair(s.bframes > 0, "-bf"@, decimal(s.bframes as nat))
}

/// Adaptive-quantisation options of x264.
pub open spec fn x264_aq(s: TranscodeSettings) -> Seq<Seq<char>> {
    if !(s.aq_mode is Disabled) {
        seq![
            "-aq-mode"@,
            decimal(s.aq_mode.spec_ffmpeg_value() as nat),
            "-aq-strength"@,
            tenths(s.aq_strength as nat),
        ]
    } else {
        seq![]
    }
}

/// libx264 options after profile, rate control, preset and tuning.
pub open spec fn spec_x264_tail(s: TranscodeSettings) -> Seq<Seq<char>> {
    opt_pair(s.bframes > 0, "-bf"@, decimal(s.bframes as nat)) + opt_pair(
        s.ref_frames > 0,
        "-refs"@,
        decimal(s.ref_frames as nat),
    ) + x264_aq(s) + opt_pair(s.lookahead > 0, "-rc-lookahead"@, decimal(s.lookahead as nat))
}

/// libx264 options.
pub open spec fn spec_x264_args(s: TranscodeSettings) -> Seq<Seq<char>> {
    seq!["-profile:v"@, s.x264_profile.spec_ffmpeg_value()] + spec_rate_control_args(
        s,
        HwAccelType::Software,
    ) + seq!["-preset"@, s.preset.spec_ffmpeg_name()] + (match s.x264_tune.spec_ffmpeg_value() {
        Some(t) => seq!["-tune"@, t],
        None => seq![],
    }) + spec_x264_tail(s)
}

/// Tunings that x265 also accepts.
pub open spec fn x265_tune_ok(t: X264Tune) -> bool {
    t is Grain || t is Animation || t is ZeroLatency || t is FastDecode || t is Psnr || t is Ssim
}

/// The entries of x265's combined parameter string.
pub open spec fn x265_params(s: TranscodeSettings) -> Seq<Seq<char>> {
    (if s.bframes > 0 {
        seq!["bframes="@ + decimal(s.bframes as nat)]
    } else {
        seq![]
    }) + (if s.ref_frames > 0 {
        seq!["ref="@ + decimal(s.ref_frames as nat)]
    } else {
        seq![]
    }) + (if !(s.aq_mode is Disabled) {
        seq![
            "aq-mode="@ + decimal(s.aq_mode.spec_ffmpeg_value() as nat),
            "aq-strength="@ + tenths(s.aq_strength as nat),
        ]
    } else {
        seq![]
    }) + (if s.lookahead > 0 {
        seq!["rc-lookahead="@ + decimal(s.lookahead as nat)]
    } else {
        seq![]
    })
}

/// Entries joined with `:`.
pub open spec fn colon_joined(parts: Seq<Seq<char>>) -> Seq<char>
    decreases parts.len(),
{
    if parts.len() == 0 {
        seq![]
    } else if parts.len() == 1 {
        parts[0]
    } else {
        colon_joined(parts.drop_last()) + ":"@ + parts.last()
    }
}

/// libx265 options.
pub open spec fn spec_x265_args(s: TranscodeSettings) -> Seq<Seq<char>> {
    spec_rate_control_args(s, HwAccelType::Software) + seq!["-preset"@, s.preset.spec_ffmpeg_name()]
        + (if x265_tune_ok(s.x264_tune) {
        seq!["-tune"@, s.x264_tune.spec_ffmpeg_value().unwrap()]
    } else {
        seq![]
    }) + opt_pair(x265_params(s).len() > 0, "-x265-params"@, colon_joined(x265_params(s)))
}

pub open spec fn vp9_cpu_used(p: VideoPreset) -> Seq<char> {
    match p {
        VideoPreset::Ultrafast => "8"@,
        VideoPreset::Fast => "6"@,
        VideoPreset::Medium => "4"@,
        VideoPreset::Slow => "2"@,
        VideoPreset::Veryslow => "0"@,
    }
}

pub open spec fn spec_vp9_rc(s: TranscodeSettings) -> Seq<Seq<char>> {
    match s.rate_control {
        RateControlMode::Cbr => seq![
            "-b:v"@,
            kbps(s.target_bitrate as nat),
            "-minrate"@,
            kbps(s.target_bitrate as nat),
            "-maxrate"@,
            kbps(s.target_bitrate as nat),
        ],
        RateControlMode::Vbr => seq![
            "-b:v"@,
            kbps(s.target_bitrate as nat),
            "-maxrate"@,
            kbps(s.max_bitrate as nat),
        ],
        _ => seq!["-b:v"@, "0"@, "-crf"@, decimal(s.crf as nat)],
    }
}

/// libvpx-vp9 options after rate control and speed.
pub open spec fn spec_vp9_tail(s: TranscodeSettings) -> Seq<Seq<char>> {
    opt_pair(s.vp9_tile_columns > 0, "-tile-columns"@, decimal(s.vp9_tile_columns as nat))
        + opt_pair(s.vp9_tile_rows > 0, "-tile-rows"@, decimal(s.vp9_tile_rows as nat))
        + opt_pair(s.vp9_frame_parallel, "-frame-parallel"@, "1"@) + (if s.vp9_auto_alt_ref {
        seq!["-auto-alt-ref"@, "1"@] + opt_pair(
            s.vp9_lag_in_frames > 0,
            "-lag-in-frames"@,
            decimal(s.vp9_lag_in_frames as nat),
        )
    } else {
        seq![]
    })
}

/// libvpx-vp9 options.
pub open spec fn spec_vp9_args(s: TranscodeSettings) -> Seq<Seq<char>> {
    spec_vp9_rc(s) + seq![
        "-cpu-used"@,
        vp9_cpu_used(s.preset),
        "-deadline"@,
        "good"@,
        "-row-mt"@,
        "1"@,
    ] + spec_vp9_tail(s)
}

/// Rate control shared by the two AV1 software encoders, but for CBR.
pub open spec fn spec_av1_rc(s: TranscodeSettings, cbr: Seq<Seq<char>>) -> Seq<Seq<char>> {
    match s.rate_control {
        RateControlMode::Cbr => cbr,
        RateControlMode::Vbr => seq![
            "-b:v"@,
            kbps(s.target_bitrate as nat),
            "-maxrate"@,
            kbps(s.max_bitrate as nat),
        ],
        _ => seq!["-crf"@, decimal(s.crf as nat)],
    }
}

pub open spec fn aom_cpu_used(p: VideoPreset) -> Seq<char> {
    match p {
        VideoPreset::Ultrafast => "8"@,
        VideoPreset::Fast => "6"@,
        VideoPreset::Medium => "4"@,
        VideoPreset::Slow => "2"@,
        VideoPreset::Veryslow => "1"@,
    }
}

/// libaom-av1 options.
pub open spec fn spec_libaom_args(s: TranscodeSettings) -> Seq<Seq<char>> {
    spec_av1_rc(s, seq!["-b:v"@, kbps(s.target_bitrate as nat)]) + seq![
        "-cpu-used"@,
        aom_cpu_used(s.preset),
        "-row-mt"@,
        "1"@,
        "-tiles"@,
        decimal(s.av1_tile_columns as nat) + "x"@ + decimal(s.av1_tile_rows as nat),
    ]
}

pub open spec fn svt_preset(p: VideoPreset) -> Seq<char> {
    match p {
        VideoPreset::Ultrafast => "12"@,
        VideoPreset::Fast => "10"@,
        VideoPreset::Medium => "8"@,
        VideoPreset::Slow => "5"@,
        VideoPreset::Veryslow => "2"@,
    }
}

/// SVT-AV1 film-grain and tile options.
pub open spec fn spec_svtav1_tail(s: TranscodeSettings) -> Seq<Seq<char>> {
    opt_pair(
        s.svtav1_film_grain > 0,
        "-svtav1-params"@,
        "film-grain="@ + decimal(s.svtav1_film_grain as nat) + (if s.svtav1_film_grain_denoise {
            ":film-grain-denoise=1"@
        } else {
            seq![]
        }),
    ) + (if s.av1_tile_columns > 0 || s.av1_tile_rows > 0 {
        seq![
            "-tile_columns"@,
            decimal(s.av1_tile_columns as nat),
            "-tile_rows"@,
            decimal(s.av1_tile_rows as nat),
        ]
    } else {
        seq![]
    })
}

/// SVT-AV1 options.
pub open spec fn spec_svtav1_args(s: TranscodeSettings) -> Seq<Seq<char>> {
    spec_av1_rc(s, seq!["-b:v"@, kbps(s.target_bitrate as nat), "-rc"@, "1"@]) + seq![
        "-preset"@,
        svt_preset(s.preset),
    ] + spec_svtav1_tail(s)
}

/// The option block of the encoder family that `enc` belongs to.
pub open spec fn spec_family_args(s: TranscodeSettings, enc: Seq<char>, hw: HwAccelType) -> Seq<
    Seq<char>,
> {
    if enc == "h264_nvenc"@ || enc == "hevc_nvenc"@ || enc == "av1_nvenc"@ {
        spec_nvenc_args(s)
    } else if enc == "h264_qsv"@ || enc == "hevc_qsv"@ || enc == "av1_qsv"@ || enc == "vp9_qsv"@ {
        spec_qsv_args(s)
    } else if enc == "h264_amf"@ || enc == "hevc_amf"@ || enc == "av1_amf"@ {
        spec_amf_args(s)
    } else if enc == "libx264"@ {
        spec_x264_args(s)
    } else if enc == "libx265"@ {
        spec_x265_args(s)
    } else if enc == "libvpx-vp9"@ {
        spec_vp9_args(s)
    } else if enc == "libaom-av1"@ {
        spec_libaom_args(s)
    } else if enc == "libsvtav1"@ {
        spec_svtav1_args(s)
    } else {
        spec_rate_control_args(s, hw) + seq!["-preset"@, s.preset.spec_ffmpeg_name()]
    }
}

/// The video block: codec selector, scale filter, family options, GOP.
pub open spec fn spec_video_args(s: TranscodeSettings, enc: Seq<char>, hw: HwAccelType) -> Seq<
    Seq<char>,
> {
    seq!["-c:v"@, enc] + spec_scale_args(s.resolution) + spec_family_args(s, enc, hw) + opt_pair(
        s.gop_size > 0,
        "-g"@,
        decimal(s.gop_size as nat),
    )
}

/// The audio block; a pass-through ignores the bitrate.
pub open spec fn spec_audio_args(s: TranscodeSettings) -> Seq<Seq<char>> {
    match s.audio_codec {
        AudioCodec::Copy => seq!["-c:a"@, "copy"@],
        AudioCodec::Aac => seq!["-c:a"@, "aac"@, "-b:a"@, kbps(s.audio_bitrate as nat)],
        AudioCodec::Mp3 => seq!["-c:a"@, "libmp3lame"@, "-b:a"@, kbps(s.audio_bitrate as nat)],
        AudioCodec::Flac => seq!["-c:a"@, "flac"@],
    }
}

/// The whole argument list of one engine invocation.
pub open spec fn spec_command(
    s: TranscodeSettings,
    input: Seq<char>,
    output: Seq<char>,
    enc: Seq<char>,
    hw: HwAccelType,
) -> Seq<Seq<char>> {
    spec_hwaccel_args(hw) + seq!["-i"@, input] + spec_video_args(s, enc, hw) + spec_audio_args(s)
        + seq!["-progress"@, "pipe:1"@, "-stats_period"@, "0.5"@, "-y"@, output]
}

/// Appends one argument.
pub(crate) fn emit_owned(args: &mut Vec<String>, a: String)
    ensures
        strs(final(args)@) == strs(old(args)@).push(a@),
{
    args.push(a);
    proof {
        assert(strs(args@) =~= strs(old(args)@).push(a@));
    }
}

fn emit_lit(args: &mut Vec<String>, a: &str)
    ensures
        strs(final(args)@) == strs(old(args)@).push(a@),
{
    emit_owned(args, owned(a));
}

fn emit_pair(args: &mut Vec<String>, flag: &str, value: String)
    ensures
        strs(final(args)@) == strs(old(args)@) + seq![flag@, value@],
{
    emit_lit(args, flag);
    emit_owned(args, value);
    proof {
        assert(strs(args@) =~= strs(old(args)@) + seq![flag@, value@]);
    }
}

fn emit_lits(args: &mut Vec<String>, flag: &str, value: &str)
    ensures
        strs(final(args)@) == strs(old(args)@) + seq![flag@, value@],
{
    emit_pair(args, flag, owned(value));
}

fn kbps_string(n: u64) -> (r: String)
    ensures
        r@ == kbps(n as nat),
{
    let d = decimal_string(n);
    join2(d.as_str(), "k")
}

fn tenths_string(n: u64) -> (r: String)
    ensures
        r@ == tenths(n as nat),
{
    let a = decimal_string(n / 10);
    let b = decimal_string(n % 10);
    join3(a.as_str(), ".", b.as_str())
}

/// Entries joined with `:`.
fn colon_join(parts: &Vec<String>) -> (r: String)
    ensures
        r@ == colon_joined(strs(parts@)),
{
    let mut out = String::new();
    let mut i: usize = 0;
    while i < parts.len()
        invariant
            i <= parts.len(),
            out@ == colon_joined(strs(parts@).take(i as int)),
        decreases parts.len() - i,
    {
        let ghost before = strs(parts@).take(i as int);
        if i > 0 {
            out.append(":");
        }
        out.append(parts[i].as_str());
        proof {
            let after = strs(parts@).take(i as int + 1);
            assert(after.drop_last() =~= before);
            assert(after.last() == parts@[i as int]@);
            if i == 0 {
                assert(before =~= seq![]);
                assert(out@ =~= parts@[0]@);
            }
        }
        i = i + 1;
    }
    assert(strs(parts@).take(parts.len() as int) =~= strs(parts@));
    out
}

fn same(a: &str, b: &str) -> (r: bool)
    ensures
        r == (a@ == b@),
{
    owned(a) == owned(b)
}


/// The file stem that `Path::file_stem` finds in a path.
pub uninterp spec fn stem_of(path: Seq<char>) -> Option<Seq<char>>;

/// Relies on `Path::file_stem`: the final component without its extension,
/// if the path has a final component, under the target's path rules.
#[verifier::external_body]
fn file_stem(path: &str) -> (r: Option<String>)
    ensures
        match r {
            Some(t) => stem_of(path@) == Some(t@),
            None => stem_of(path@) is None,
        },
{
    std::path::Path::new(path).file_stem().map(|t| t.to_string_lossy().into_owned())
}

/// The path that `Path::join` makes of a directory and a relative name.
pub uninterp spec fn joined_path(dir: Seq<char>, name: Seq<char>) -> Seq<char>;

/// Relies on `Path::join`: `name` placed inside `dir`, under the target's
/// path rules.
#[verifier::external_body]
fn join_path(dir: &str, name: &str) -> (r: String)
    ensures
        r@ == joined_path(dir@, name@),
{
    std::path::Path::new(dir).join(name).to_string_lossy().into_owned()
}

/// Output file name for a stem, a suffix and a container.
pub open spec fn spec_output_name(stem: Option<Seq<char>>, suffix: Seq<char>, c: ContainerFormat) -> Seq<
    char,
> {
    (match stem {
        Some(t) => t,
        None => "output"@,
    }) + suffix + "."@ + c.spec_extension()
}

/// State of one job in the queue.
#[derive(Clone, Debug, PartialEq)]
pub enum JobState {
    Pending,
    Running,
    Completed,
    /// Failed, with the message shown to the user.
    Failed(String),
    Cancelled,
}

/// One transcode job: an input, an output and the settings to apply.
#[derive(Clone, Debug)]
pub struct TranscodeJob {
    /// Input file path.
    pub input_path: String,
    /// Output file path.
    pub output_path: String,
    /// Settings of the job.
    pub settings: TranscodeSettings,
    /// Set once this job value is asked to stop. The flag belongs to the
    /// value: a copy taken earlier keeps its own. Observers of a running job
    /// share the cancellation through the progress state instead.
    pub cancelled: bool,
    /// Where the job stands.
    pub state: JobState,
}

impl TranscodeJob {
    /// A pending, not cancelled job.
    pub fn new(input_path: String, output_path: String, settings: TranscodeSettings) -> (r: Self)
        ensures
            r.input_path == input_path,
            r.output_path == output_path,
            r.settings == settings,
            !r.cancelled,
            r.state == JobState::Pending,
    {
        TranscodeJob { input_path, output_path, settings, cancelled: false, state: JobState::Pending }
    }

    /// Asks this job value to stop; calling it again changes nothing.
    pub fn cancel(&mut self)
        ensures
            final(self).cancelled,
            final(self).input_path == old(self).input_path,
            final(self).output_path == old(self).output_path,
            final(self).settings == old(self).settings,
            final(self).state == old(self).state,
    {
        self.cancelled = true;
    }

    /// Whether this job value was asked to stop (never, for a fresh job).
    pub fn is_cancelled(&self) -> (r: bool)
        ensures
            r == self.cancelled,
    {
        self.cancelled
    }

    fn add_hwaccel_args(&self, args: &mut Vec<String>, hwaccel: &HwAccelType)
        ensures
            strs(final(args)@) == strs(old(args)@) + spec_hwaccel_args(*hwaccel),
    {
        match hwaccel {
            HwAccelType::Nvenc => emit_lits(args, "-hwaccel", "cuda"),
            HwAccelType::Qsv => emit_lits(args, "-hwaccel", "qsv"),
            HwAccelType::Amf => emit_lits(args, "-hwaccel", "d3d11va"),
            _ => {
                assert(strs(args@) =~= strs(old(args)@) + spec_hwaccel_args(*hwaccel));
            },
        }
    }

    fn add_rate_control_args(&self, args: &mut Vec<String>, hwaccel: &HwAccelType)
        ensures
            strs(final(args)@) == strs(old(args)@) + spec_rate_control_args(self.settings, *hwaccel),
    {
        let s = &self.settings;
        match s.rate_control {
            RateControlMode::Crf => {
                match hwaccel {
                    HwAccelType::Nvenc | HwAccelType::Qsv | HwAccelType::Amf => {
                        emit_pair(args, "-cq", decimal_string(s.crf as u64));
                    },
                    _ => {
                        emit_pair(args, "-crf", decimal_string(s.crf as u64));
                    },
                }
            },
            RateControlMode::Cbr => {
                emit_pair(args, "-b:v", kbps_string(s.target_bitrate as u64));
                emit_pair(args, "-maxrate", kbps_string(s.target_bitrate as u64));
                emit_pair(args, "-bufsize", kbps_string(2 * s.target_bitrate as u64));
            },
            RateControlMode::Vbr => {
                emit_pair(args, "-b:v", kbps_string(s.target_bitrate as u64));
                emit_pair(args, "-maxrate", kbps_string(s.max_bitrate as u64));
                emit_pair(args, "-bufsize", kbps_string(s.max_bitrate as u64));
            },
            RateControlMode::Cqp => {
                emit_pair(args, "-qp", decimal_string(s.crf as u64));
            },
        }
        assert(strs(args@) =~= strs(old(args)@) + spec_rate_control_args(self.settings, *hwaccel));
    }

    fn add_nvenc_rc(&self, args: &mut Vec<String>)
        ensures
            strs(final(args)@) == strs(old(args)@) + spec_nvenc_rc(self.settings),
    {
        let s = &self.settings;
        match s.rate_control {
            RateControlMode::Crf => {
                emit_lits(args, "-rc", "vbr");
                emit_pair(args, "-cq", decimal_string(s.crf as u64));
            },
            RateControlMode::Cbr => {
                emit_lits(args, "-rc", "cbr");
                emit_pair(args, "-b:v", kbps_string(s.target_bitrate as u64));
            },
            RateControlMode::Vbr => {
                emit_lits(args, "-rc", "vbr");
                emit_pair(args, "-b:v", kbps_string(s.target_bitrate as u64));
                emit_pair(args, "-maxrate", kbps_string(s.max_bitrate as u64));
            },
            RateControlMode::Cqp => {
                emit_lits(args, "-rc", "constqp");
                emit_pair(args, "-qp", decimal_string(s.crf as u64));
            },
        }
        assert(strs(args@) =~= strs(old(args)@) + spec_nvenc_rc(self.settings));
    }

    fn add_nvenc_args(&self, args: &mut Vec<String>)
        ensures
            strs(final(args)@) == strs(old(args)@) + spec_nvenc_args(self.settings),
    {
        let s = &self.settings;
        let ghost a0 = strs(args@);
        emit_lits(args, "-tune", s.nvenc_tune.ffmpeg_value());
        self.add_nvenc_rc(args);
        let preset = match s.preset {
            VideoPreset::Ultrafast => "p1",
            VideoPreset::Fast => "p3",
            VideoPreset::Medium => "p4",
            VideoPreset::Slow => "p6",
            VideoPreset::Veryslow => "p7",
        };
        emit_lits(args, "-preset", preset);
        emit_lits(args, "-multipass", s.nvenc_multipass.ffmpeg_value());
        let ghost a1 = strs(args@);
        if s.bframes > 0 {
            emit_pair(args, "-bf", decimal_string(s.bframes as u64));
            emit_lits(args, "-b_ref_mode", s.nvenc_b_ref_mode.ffmpeg_value());
        }
        let ghost a2 = strs(args@);
        if s.lookahead > 0 {
            emit_pair(args, "-rc-lookahead", decimal_string(s.lookahead as u64));
        }
        let ghost a3 = strs(args@);
        if s.aq_mode != AqMode::Disabled {
            emit_lits(args, "-spatial-aq", "1");
            emit_pair(args, "-aq-strength", decimal_string(s.aq_strength as u64));
        }
        assert(a1 =~= a0 + seq!["-tune"@, s.nvenc_tune.spec_ffmpeg_value()] + spec_nvenc_rc(*s) + seq![
            "-preset"@,
            nvenc_preset(s.preset),
            "-multipass"@,
            s.nvenc_multipass.spec_ffmpeg_value(),
        ]);
        assert(strs(args@) =~= strs(old(args)@) + spec_nvenc_args(self.settings));
    }

    fn add_qsv_tail(&self, args: &mut Vec<String>)
        ensures
            strs(final(args)@) == strs(old(args)@) + spec_qsv_tail(self.settings),
    {
        let s = &self.settings;
        if s.qsv_adaptive_i {
            emit_lits(args, "-adaptive_i", "1");
        }
        let ghost a1 = strs(args@);
        assert(a1 =~= strs(old(args)@) + opt_pair(s.qsv_adaptive_i, "-adaptive_i"@, "1"@));
        if s.qsv_adaptive_b {
            emit_lits(args, "-adaptive_b", "1");
        }
        let ghost a2 = strs(args@);
        assert(a2 =~= a1 + opt_pair(s.qsv_adaptive_b, "-adaptive_b"@, "1"@));
        if s.bframes > 0 {
            emit_pair(args, "-bf", decimal_string(s.bframes as u64));
        }
        let ghost a3 = strs(args@);
        assert(a3 =~= a2 + opt_pair(s.bframes > 0, "-bf"@, decimal(s.bframes as nat)));
        if s.ref_frames > 0 {
            emit_pair(args, "-refs", decimal_string(s.ref_frames as u64));
        }
        assert(strs(args@) =~= a3 + opt_pair(s.ref_frames > 0, "-refs"@, decimal(s.ref_frames as nat)));
        assert(strs(args@) =~= strs(old(args)@) + spec_qsv_tail(self.settings));
    }

    fn add_qsv_args(&self, args: &mut Vec<String>)
        ensures
            strs(final(args)@) == strs(old(args)@) + spec_qsv_args(self.settings),
    {
        let s = &self.settings;
        match s.rate_control {
            RateControlMode::Crf => emit_pair(args, "-global_quality", decimal_string(s.crf as u64)),
            RateControlMode::Cbr => {
                emit_pair(args, "-b:v", kbps_string(s.target_bitrate as u64));
                emit_pair(args, "-maxrate", kbps_string(s.target_bitrate as u64));
            },
            RateControlMode::Vbr => {
                emit_pair(args, "-b:v", kbps_string(s.target_bitrate as u64));
                emit_pair(args, "-maxrate", kbps_string(s.max_bitrate as u64));
            },
            RateControlMode::Cqp => emit_pair(args, "-q", decimal_string(s.crf as u64)),
        }
        let ghost a1 = strs(args@);
        assert(a1 =~= strs(old(args)@) + spec_qsv_rc(*s));
        let preset = match s.preset {
            VideoPreset::Ultrafast => "veryfast",
            VideoPreset::Fast => "faster",
            VideoPreset::Medium => "medium",
            VideoPreset::Slow => "slower",
            VideoPreset::Veryslow => "veryslow",
        };
        emit_lits(args, "-preset", preset);
        if s.qsv_la_depth > 0 {
            emit_lits(args, "-look_ahead", "1");
            emit_pair(args, "-look_ahead_depth", decimal_string(s.qsv_la_depth as u64));
        }
        let ghost a2 = strs(args@);
        assert(a2 =~= a1 + seq!["-preset"@, qsv_preset(s.preset)] + (if s.qsv_la_depth > 0 {
            seq!["-look_ahead"@, "1"@, "-look_ahead_depth"@, decimal(s.qsv_la_depth as nat)]
        } else {
            seq![]
        }));
        self.add_qsv_tail(args);
        assert(strs(args@) =~= strs(old(args)@) + spec_qsv_args(self.settings));
    }

    fn add_amf_args(&self, args: &mut Vec<String>)
        ensures
            strs(final(args)@) == strs(old(args)@) + spec_amf_args(self.settings),
    {
        let s = &self.settings;
        emit_lits(args, "-usage", s.amf_usage.ffmpeg_value());
        emit_lits(args, "-quality", s.amf_quality.ffmpeg_value());
        let ghost a1 = strs(args@);
        match s.rate_control {
            RateControlMode::Crf => {
                emit_lits(args, "-rc", "cqp");
                emit_pair(args, "-qp_i", decimal_string(s.crf as u64));
                emit_pair(args, "-qp_p", decimal_string(s.crf as u64));
                emit_pair(args, "-qp_b", decimal_string(s.crf as u64 + 2));
            },
            RateControlMode::Cbr => {
                emit_lits(args, "-rc", "cbr");
                emit_pair(args, "-b:v", kbps_string(s.target_bitrate as u64));
            },
            RateControlMode::Vbr => {
                emit_lits(args, "-rc", "vbr_peak");
                emit_pair(args, "-b:v", kbps_string(s.target_bitrate as u64));
                emit_pair(args, "-maxrate", kbps_string(s.max_bitrate as u64));
            },
            RateControlMode::Cqp => {
                emit_lits(args, "-rc", "cqp");
                emit_pair(args, "-qp_i", decimal_string(s.crf as u64));
                emit_pair(args, "-qp_p", decimal_string(s.crf as u64));
            },
        }
        let ghost a2 = strs(args@);
        assert(a2 =~= a1 + spec_amf_rc(*s));
        if s.bframes > 0 {
            emit_pair(args, "-bf", decimal_string(s.bframes as u64));
        }
        assert(strs(args@) =~= strs(old(args)@) + spec_amf_args(self.settings));
    }

    fn add_x264_tail(&self, args: &mut Vec<String>)
        ensures
            strs(final(args)@) == strs(old(args)@) + spec_x264_tail(self.settings),
    {
        let s = &self.settings;
        if s.bframes > 0 {
            emit_pair(args, "-bf", decimal_string(s.bframes as u64));
        }
        let ghost a3 = strs(args@);
        assert(a3 =~= strs(old(args)@) + opt_pair(s.bframes > 0, "-bf"@, decimal(s.bframes as nat)));
        if s.ref_frames > 0 {
            emit_pair(args, "-refs", decimal_string(s.ref_frames as u64));
        }
        let ghost a4 = strs(args@);
        assert(a4 =~= a3 + opt_pair(s.ref_frames > 0, "-refs"@, decimal(s.ref_frames as nat)));
        if s.aq_mode != AqMode::Disabled {
            emit_pair(args, "-aq-mode", decimal_string(s.aq_mode.ffmpeg_value() as u64));
            emit_pair(args, "-aq-strength", tenths_string(s.aq_strength as u64));
        }
        let ghost a5 = strs(args@);
        assert(a5 =~= a4 + x264_aq(*s));
        if s.lookahead > 0 {
            emit_pair(args, "-rc-lookahead", decimal_string(s.lookahead as u64));
        }
        assert(strs(args@) =~= a5 + opt_pair(s.lookahead > 0, "-rc-lookahead"@, decimal(s.lookahead as nat)));
        assert(strs(args@) =~= strs(old(args)@) + spec_x264_tail(self.settings));
    }

    fn add_x264_args(&self, args: &mut Vec<String>)
        ensures
            strs(final(args)@) == strs(old(args)@) + spec_x264_args(self.settings),
    {
        let s = &self.settings;
        emit_lits(args, "-profile:v", s.x264_profile.ffmpeg_value());
        self.add_rate_control_args(args, &HwAccelType::Software);
        emit_lits(args, "-preset", s.preset.ffmpeg_name());
        let ghost a1 = strs(args@);
        match s.x264_tune.ffmpeg_value() {
            Some(tune) => emit_lits(args, "-tune", tune),
            None => {},
        }
        let ghost a2 = strs(args@);
        assert(a1 =~= strs(old(args)@) + seq!["-profile:v"@, s.x264_profile.spec_ffmpeg_value()]
            + spec_rate_control_args(*s, HwAccelType::Software) + seq!["-preset"@, s.preset.spec_ffmpeg_name()]);
        assert(a2 =~= a1 + (match s.x264_tune.spec_ffmpeg_value() {
            Some(t) => seq!["-tune"@, t],
            None => seq![],
        }));
        self.add_x264_tail(args);
        assert(strs(args@) =~= strs(old(args)@) + spec_x264_args(self.settings));
    }

    fn x265_param_list(&self) -> (r: Vec<String>)
        ensures
            strs(r@) == x265_params(self.settings),
    {
        let s = &self.settings;
        let mut params: Vec<String> = Vec::new();
        assert(strs(params@) =~= seq![]);
        if s.bframes > 0 {
            let d = decimal_string(s.bframes as u64);
            emit_owned(&mut params, join2("bframes=", d.as_str()));
        }
        let ghost p1 = strs(params@);
        if s.ref_frames > 0 {
            let d = decimal_string(s.ref_frames as u64);
            emit_owned(&mut params, join2("ref=", d.as_str()));
        }
        let ghost p2 = strs(params@);
        if s.aq_mode != AqMode::Disabled {
            let d = decimal_string(s.aq_mode.ffmpeg_value() as u64);
            emit_owned(&mut params, join2("aq-mode=", d.as_str()));
            let t = tenths_string(s.aq_strength as u64);
            emit_owned(&mut params, join2("aq-strength=", t.as_str()));
        }
        let ghost p3 = strs(params@);
        if s.lookahead > 0 {
            let d = decimal_string(s.lookahead as u64);
            emit_owned(&mut params, join2("rc-lookahead=", d.as_str()));
        }
        assert(strs(params@) =~= x265_params(self.settings));
        params
    }

    fn add_x265_args(&self, args: &mut Vec<String>)
        ensures
            strs(final(args)@) == strs(old(args)@) + spec_x265_args(self.settings),
    {
        let s = &self.settings;
        self.add_rate_control_args(args, &HwAccelType::Software);
        emit_lits(args, "-preset", s.preset.ffmpeg_name());
        let ghost a1 = strs(args@);
        match s.x264_tune {
            X264Tune::Grain | X264Tune::Animation | X264Tune::ZeroLatency | X264Tune::FastDecode
            | X264Tune::Psnr | X264Tune::Ssim => {
                match s.x264_tune.ffmpeg_value() {
                    Some(tune) => emit_lits(args, "-tune", tune),
                    None => {},
                }
            },
            _ => {},
        }
        let ghost a2 = strs(args@);
        let params = self.x265_param_list();
        if params.len() > 0 {
            emit_pair(args, "-x265-params", colon_join(&params));
        }
        assert(strs(args@) =~= strs(old(args)@) + spec_x265_args(self.settings));
    }

    fn add_vp9_tail(&self, args: &mut Vec<String>)
        ensures
            strs(final(args)@) == strs(old(args)@) + spec_vp9_tail(self.settings),
    {
        let s = &self.settings;
        if s.vp9_tile_columns > 0 {
            emit_pair(args, "-tile-columns", decimal_string(s.vp9_tile_columns as u64));
        }
        let ghost a3 = strs(args@);
        assert(a3 =~= strs(old(args)@) + opt_pair(s.vp9_tile_columns > 0, "-tile-columns"@, decimal(s.vp9_tile_columns as nat)));
        if s.vp9_tile_rows > 0 {
            emit_pair(args, "-tile-rows", decimal_string(s.vp9_tile_rows as u64));
        }
        let ghost a4 = strs(args@);
        assert(a4 =~= a3 + opt_pair(s.vp9_tile_rows > 0, "-tile-rows"@, decimal(s.vp9_tile_rows as nat)));
        if s.vp9_frame_parallel {
            emit_lits(args, "-frame-parallel", "1");
        }
        let ghost a5 = strs(args@);
        assert(a5 =~= a4 + opt_pair(s.vp9_frame_parallel, "-frame-parallel"@, "1"@));
        if s.vp9_auto_alt_ref {
            emit_lits(args, "-auto-alt-ref", "1");
            if s.vp9_lag_in_frames > 0 {
                emit_pair(args, "-lag-in-frames", decimal_string(s.vp9_lag_in_frames as u64));
            }
            assert(strs(args@) =~= a5 + seq!["-auto-alt-ref"@, "1"@] + opt_pair(
                s.vp9_lag_in_frames > 0,
                "-lag-in-frames"@,
                decimal(s.vp9_lag_in_frames as nat),
            ));
        } else {
            assert(strs(args@) =~= a5 + seq![]);
        }
        assert(strs(args@) =~= strs(old(args)@) + spec_vp9_tail(self.settings));
    }

    fn add_vp9_args(&self, args: &mut Vec<String>)
        ensures
            strs(final(args)@) == strs(old(args)@) + spec_vp9_args(self.settings),
    {
        let s = &self.settings;
        match s.rate_control {
            RateControlMode::Cbr => {
                emit_pair(args, "-b:v", kbps_string(s.target_bitrate as u64));
                emit_pair(args, "-minrate", kbps_string(s.target_bitrate as u64));
                emit_pair(args, "-maxrate", kbps_string(s.target_bitrate as u64));
            },
            RateControlMode::Vbr => {
                emit_pair(args, "-b:v", kbps_string(s.target_bitrate as u64));
                emit_pair(args, "-maxrate", kbps_string(s.max_bitrate as u64));
            },
            _ => {
                emit_lits(args, "-b:v", "0");
                emit_pair(args, "-crf", decimal_string(s.crf as u64));
            },
        }
        let ghost a1 = strs(args@);
        assert(a1 =~= strs(old(args)@) + spec_vp9_rc(*s));
        let cpu_used = match s.preset {
            VideoPreset::Ultrafast => "8",
            VideoPreset::Fast => "6",
            VideoPreset::Medium => "4",
            VideoPreset::Slow => "2",
            VideoPreset::Veryslow => "0",
        };
        emit_lits(args, "-cpu-used", cpu_used);
        emit_lits(args, "-deadline", "good");
        emit_lits(args, "-row-mt", "1");
        let ghost a2 = strs(args@);
        assert(a2 =~= a1 + seq![
            "-cpu-used"@,
            vp9_cpu_used(s.preset),
            "-deadline"@,
            "good"@,
            "-row-mt"@,
            "1"@,
        ]);
        self.add_vp9_tail(args);
        assert(strs(args@) =~= strs(old(args)@) + spec_vp9_args(self.settings));
    }

    fn add_libaom_av1_args(&self, args: &mut Vec<String>)
        ensures
            strs(final(args)@) == strs(old(args)@) + spec_libaom_args(self.settings),
    {
        let s = &self.settings;
        match s.rate_control {
            RateControlMode::Cbr => emit_pair(args, "-b:v", kbps_string(s.target_bitrate as u64)),
            RateControlMode::Vbr => {
                emit_pair(args, "-b:v", kbps_string(s.target_bitrate as u64));
                emit_pair(args, "-maxrate", kbps_string(s.max_bitrate as u64));
            },
            _ => emit_pair(args, "-crf", decimal_string(s.crf as u64)),
        }
        let ghost a1 = strs(args@);
        assert(a1 =~= strs(old(args)@) + spec_av1_rc(*s, seq!["-b:v"@, kbps(s.target_bitrate as nat)]));
        let cpu_used = match s.preset {
            VideoPreset::Ultrafast => "8",
            VideoPreset::Fast => "6",
            VideoPreset::Medium => "4",
            VideoPreset::Slow => "2",
            VideoPreset::Veryslow => "1",
        };
        emit_lits(args, "-cpu-used", cpu_used);
        emit_lits(args, "-row-mt", "1");
        let c = decimal_string(s.av1_tile_columns as u64);
        let r = decimal_string(s.av1_tile_rows as u64);
        emit_pair(args, "-tiles", join3(c.as_str(), "x", r.as_str()));
        assert(strs(args@) =~= strs(old(args)@) + spec_libaom_args(self.settings));
    }

    fn add_svtav1_tail(&self, args: &mut Vec<String>)
        ensures
            strs(final(args)@) == strs(old(args)@) + spec_svtav1_tail(self.settings),
    {
        let s = &self.settings;
        let ghost a2 = strs(args@);
        if s.svtav1_film_grain > 0 {
            let g = decimal_string(s.svtav1_film_grain as u64);
            let mut params = join2("film-grain=", g.as_str());
            if s.svtav1_film_grain_denoise {
                params.append(":film-grain-denoise=1");
            }
            emit_pair(args, "-svtav1-params", params);
        }
        let ghost a3 = strs(args@);
        assert(a3 =~= a2 + opt_pair(
            s.svtav1_film_grain > 0,
            "-svtav1-params"@,
            "film-grain="@ + decimal(s.svtav1_film_grain as nat) + (if s.svtav1_film_grain_denoise {
                ":film-grain-denoise=1"@
            } else {
                seq![]
            }),
        ));
        if s.av1_tile_columns > 0 || s.av1_tile_rows > 0 {
            emit_pair(args, "-tile_columns", decimal_string(s.av1_tile_columns as u64));
            emit_pair(args, "-tile_rows", decimal_string(s.av1_tile_rows as u64));
        }
        assert(strs(args@) =~= strs(old(args)@) + spec_svtav1_tail(self.settings));
    }

    fn add_svtav1_args(&self, args: &mut Vec<String>)
        ensures
            strs(final(args)@) == strs(old(args)@) + spec_svtav1_args(self.settings),
    {
        let s = &self.settings;
        match s.rate_control {
            RateControlMode::Cbr => {
                emit_pair(args, "-b:v", kbps_string(s.target_bitrate as u64));
                emit_lits(args, "-rc", "1");
            },
            RateControlMode::Vbr => {
                emit_pair(args, "-b:v", kbps_string(s.target_bitrate as u64));
                emit_pair(args, "-maxrate", kbps_string(s.max_bitrate as u64));
            },
            _ => emit_pair(args, "-crf", decimal_string(s.crf as u64)),
        }
        let ghost a1 = strs(args@);
        assert(a1 =~= strs(old(args)@) + spec_av1_rc(
            *s,
            seq!["-b:v"@, kbps(s.target_bitrate as nat), "-rc"@, "1"@],
        ));
        let preset = match s.preset {
            VideoPreset::Ultrafast => "12",
            VideoPreset::Fast => "10",
            VideoPreset::Medium => "8",
            VideoPreset::Slow => "5",
            VideoPreset::Veryslow => "2",
        };
        emit_lits(args, "-preset", preset);
        self.add_svtav1_tail(args);
        assert(strs(args@) =~= strs(old(args)@) + spec_svtav1_args(self.settings));
    }

    fn add_scale_args(&self, args: &mut Vec<String>)
        ensures
            strs(final(args)@) == strs(old(args)@) + spec_scale_args(self.settings.resolution),
    {
        match self.settings.resolution {
            VideoResolution::Original => {
                assert(strs(args@) =~= strs(old(args)@) + spec_scale_args(self.settings.resolution));
            },
            res => {
                let (w, h) = res.dimensions();
                let ws = decimal_string(w as u64);
                let hs = decimal_string(h as u64);
                let mut filter = join2("scale=", ws.as_str());
                filter.append(":");
                filter.append(hs.as_str());
                emit_pair(args, "-vf", filter);
            },
        }
    }

    fn add_family_args(&self, args: &mut Vec<String>, encoder: &str, hwaccel: &HwAccelType)
        ensures
            strs(final(args)@) == strs(old(args)@) + spec_family_args(self.settings, encoder@, *hwaccel),
    {
        if same(encoder, "h264_nvenc") || same(encoder, "hevc_nvenc") || same(encoder, "av1_nvenc") {
            self.add_nvenc_args(args);
        } else if same(encoder, "h264_qsv") || same(encoder, "hevc_qsv") || same(encoder, "av1_qsv")
            || same(encoder, "vp9_qsv") {
            self.add_qsv_args(args);
        } else if same(encoder, "h264_amf") || same(encoder, "hevc_amf") || same(encoder, "av1_amf") {
            self.add_amf_args(args);
        } else if same(encoder, "libx264") {
            self.add_x264_args(args);
        } else if same(encoder, "libx265") {
            self.add_x265_args(args);
        } else if same(encoder, "libvpx-vp9") {
            self.add_vp9_args(args);
        } else if same(encoder, "libaom-av1") {
            self.add_libaom_av1_args(args);
        } else if same(encoder, "libsvtav1") {
            self.add_svtav1_args(args);
        } else {
            self.add_rate_control_args(args, hwaccel);
            emit_lits(args, "-preset", self.settings.preset.ffmpeg_name());
            assert(strs(args@) =~= strs(old(args)@) + spec_family_args(self.settings, encoder@, *hwaccel));
        }
    }

    fn add_video_args_with_encoder(&self, args: &mut Vec<String>, encoder: &str, hwaccel: &HwAccelType)
        ensures
            strs(final(args)@) == strs(old(args)@) + spec_video_args(self.settings, encoder@, *hwaccel),
    {
        emit_lits(args, "-c:v", encoder);
        self.add_scale_args(args);
        let ghost a1 = strs(args@);
        self.add_family_args(args, encoder, hwaccel);
        let ghost a2 = strs(args@);
        if self.settings.gop_size > 0 {
            emit_pair(args, "-g", decimal_string(self.settings.gop_size as u64));
        }
        assert(strs(args@) =~= a2 + opt_pair(
            self.settings.gop_size > 0,
            "-g"@,
            decimal(self.settings.gop_size as nat),
        ));
        assert(strs(args@) =~= strs(old(args)@) + spec_video_args(self.settings, encoder@, *hwaccel));
    }

    #[allow(dead_code)]
    fn add_video_args(&self, args: &mut Vec<String>)
        ensures
            strs(final(args)@) == strs(old(args)@) + spec_video_args(
                self.settings,
                spec_encoder_name(self.settings.video_codec, self.settings.hwaccel),
                self.settings.hwaccel,
            ),
    {
        let encoder = self.settings.video_codec.encoder_name(&self.settings.hwaccel);
        self.add_video_args_with_encoder(args, encoder, &self.settings.hwaccel);
    }

    fn add_audio_args(&self, args: &mut Vec<String>)
        ensures
            strs(final(args)@) == strs(old(args)@) + spec_audio_args(self.settings),
    {
        match self.settings.audio_codec {
            AudioCodec::Copy => emit_lits(args, "-c:a", "copy"),
            AudioCodec::Aac => {
                emit_lits(args, "-c:a", "aac");
                emit_pair(args, "-b:a", kbps_string(self.settings.audio_bitrate as u64));
            },
            AudioCodec::Mp3 => {
                emit_lits(args, "-c:a", "libmp3lame");
                emit_pair(args, "-b:a", kbps_string(self.settings.audio_bitrate as u64));
            },
            AudioCodec::Flac => emit_lits(args, "-c:a", "flac"),
        }
        assert(strs(args@) =~= strs(old(args)@) + spec_audio_args(self.settings));
    }

    /// The engine arguments of this job when it runs `encoder` under the
    /// acceleration category `hwaccel`.
    pub fn compile_args(&self, encoder: &str, hwaccel: HwAccelType) -> (r: Vec<String>)
        ensures
            strs(r@) == spec_command(
                self.settings,
                self.input_path@,
                self.output_path@,
                encoder@,
                hwaccel,
            ),
    {
        let mut args: Vec<String> = Vec::new();
        assert(strs(args@) =~= seq![]);
        self.add_hwaccel_args(&mut args, &hwaccel);
        emit_lits(&mut args, "-i", self.input_path.as_str());
        self.add_video_args_with_encoder(&mut args, encoder, &hwaccel);
        self.add_audio_args(&mut args);
        let ghost a1 = strs(args@);
        emit_lits(&mut args, "-progress", "pipe:1");
        emit_lits(&mut args, "-stats_period", "0.5");
        emit_lits(&mut args, "-y", self.output_path.as_str());
        assert(strs(args@) =~= a1 + seq!["-progress"@, "pipe:1"@, "-stats_period"@, "0.5"@, "-y"@, self.output_path@]);
        assert(strs(args@) =~= spec_command(
            self.settings,
            self.input_path@,
            self.output_path@,
            encoder@,
            hwaccel,
        ));
        args
    }

    /// The engine arguments of this job. With availability facts (the names
    /// of the encoders that passed their test) the encoder is resolved with
    /// fallback; without them the preferred encoder is used as it is.
    pub fn build_ffmpeg_args_with_path(&self, usable: Option<&Vec<String>>) -> (r: Vec<String>)
        ensures
            match usable {
                Some(u) => {
                    let e = spec_resolve(self.settings.video_codec, self.settings.hwaccel, strs(u@));
                    strs(r@) == spec_command(self.settings, self.input_path@, self.output_path@, e.0, e.1)
                },
                None => strs(r@) == spec_command(
                    self.settings,
                    self.input_path@,
                    self.output_path@,
                    spec_encoder_name(self.settings.video_codec, self.settings.hwaccel),
                    self.settings.hwaccel,
                ),
            },
    {
        match usable {
            Some(u) => {
                let (encoder, hwaccel) = HwAccelDetector::get_available_encoder(
                    &self.settings.video_codec,
                    &self.settings.hwaccel,
                    u,
                );
                self.compile_args(encoder.as_str(), hwaccel)
            },
            None => {
                let encoder = self.settings.video_codec.encoder_name(&self.settings.hwaccel);
                self.compile_args(encoder, self.settings.hwaccel)
            },
        }
    }

    /// The engine arguments of this job for its preferred encoder.
    pub fn build_ffmpeg_args(&self) -> (r: Vec<String>)
        ensures
            strs(r@) == spec_command(
                self.settings,
                self.input_path@,
                self.output_path@,
                spec_encoder_name(self.settings.video_codec, self.settings.hwaccel),
                self.settings.hwaccel,
            ),
    {
        self.build_ffmpeg_args_with_path(None)
    }

    /// The output file name: the input's stem (`output` when it has none),
    /// the suffix, a dot and the container's extension.
    pub fn output_file_name(stem: Option<&str>, suffix: &str, settings: &TranscodeSettings) -> (r: String)
        ensures
            r@ == spec_output_name(
                match stem {
                    Some(t) => Some(t@),
                    None => None,
                },
                suffix@,
                settings.container,
            ),
    {
        let mut name = match stem {
            Some(t) => owned(t),
            None => owned("output"),
        };
        name.append(suffix);
        name.append(".");
        name.append(settings.container.extension());
        name
    }

    /// `<dir>/<input stem><suffix>.<extension>`.
    pub fn generate_output_path(
        input_path: &str,
        output_dir: &str,
        suffix: &str,
        settings: &TranscodeSettings,
    ) -> (r: String)
        ensures
            r@ == joined_path(
                output_dir@,
                spec_output_name(stem_of(input_path@), suffix@, settings.container),
            ),
    {
        let stem = file_stem(input_path);
        let name = match &stem {
            Some(t) => Self::output_file_name(Some(t.as_str()), suffix, settings),
            None => Self::output_file_name(None, suffix, settings),
        };
        join_path(output_dir, name.as_str())
    }
}

} // verus!
