//! What the compiled argument lists hold, counted over option flags: an
//! argument list is read as flag/value pairs.
use vstd::prelude::*;

use crate::hwaccel::HwAccelType;
use crate::job::{
    scale_filter, spec_audio_args, spec_command, spec_scale_args,
    aom_cpu_used, colon_joined, kbps, nvenc_preset, opt_pair, qsv_preset, spec_amf_args, spec_amf_rc,
    spec_av1_rc, spec_family_args, spec_hwaccel_args, spec_libaom_args, spec_nvenc_args, spec_nvenc_rc,
    spec_qsv_args, spec_qsv_rc, spec_qsv_tail, spec_rate_control_args, spec_svtav1_args,
    spec_svtav1_tail, spec_vp9_args, spec_vp9_rc, spec_vp9_tail, spec_x264_args, spec_x264_tail,
    spec_x265_args, svt_preset, tenths, vp9_cpu_used, x264_aq, x265_params, x265_tune_ok,
};
use crate::text::decimal;
use crate::hwaccel::{first_usable, spec_fallbacks, spec_resolve};
use crate::preset::{
    spec_encoder_name, ContainerFormat, RateControlMode, TranscodeSettings, VideoCodec, VideoResolution,
};
use crate::text::{all_digits, digit_char, digits_value, is_digit, spec_parse_u64};

verus! {

/// A text that starts like a scale filter value.
pub open spec fn scale_prefixed(t: Seq<char>) -> bool {
    t.len() >= 6 && t.take(6) == "scale="@
}

/// Neither a codec selector, nor the scale flag, nor a scale filter value.
pub open spec fn neutral(t: Seq<char>) -> bool {
    t != "-c:v"@ && t != "-c:a"@ && t != "-vf"@ && !scale_prefixed(t)
}

/// A block of flag/value pairs none of whose arguments is a codec
/// selector, the scale flag or a scale filter value.
pub open spec fn clean(args: Seq<Seq<char>>) -> bool {
    &&& args.len() % 2 == 0
    &&& forall|i: int| 0 <= i < args.len() ==> neutral(#[trigger] args[i])
}

/// A flag other than the codec selectors and the scale filter.
pub open spec fn plain_flag(f: Seq<char>) -> bool {
    f != "-c:v"@ && f != "-c:a"@ && f != "-vf"@
}

/// A flag is plain when its second character is neither `c` nor `v`, or it
/// starts `-c` without a colon after.
proof fn lemma_plain(f: Seq<char>)
    requires
        f.len() >= 2,
        f[1] != 'c' && f[1] != 'v' || f.len() >= 3 && f[1] == 'c' && f[2] != ':',
    ensures
        plain_flag(f),
{
    reveal_strlit("-c:v");
    reveal_strlit("-c:a");
    reveal_strlit("-vf");
    if f == "-c:v"@ {
        assert(f[1] == 'c' && f[2] == ':');
    }
    if f == "-c:a"@ {
        assert(f[1] == 'c' && f[2] == ':');
    }
    if f == "-vf"@ {
        assert(f[1] == 'v');
    }
}

proof fn lemma_neutral_flag(f: Seq<char>)
    requires
        plain_flag(f),
        f.len() > 0,
        f[0] == '-',
    ensures
        neutral(f),
{
    reveal_strlit("scale=");
    if scale_prefixed(f) {
        assert(f.take(6)[0] == f[0]);
    }
}

/// A value is neutral when it does not start with `-` nor with `sc`.
proof fn lemma_value(v: Seq<char>)
    requires
        v.len() > 0,
        v[0] != '-',
        v[0] != 's' || v.len() > 1 && v[1] != 'c',
    ensures
        neutral(v),
{
    reveal_strlit("-c:v");
    reveal_strlit("-c:a");
    reveal_strlit("-vf");
    reveal_strlit("scale=");
    if v == "-c:v"@ || v == "-c:a"@ || v == "-vf"@ {
        assert(v[0] == '-');
    }
    if scale_prefixed(v) {
        assert(v.take(6)[0] == v[0] && v.take(6)[1] == v[1]);
    }
}

proof fn lemma_clean_add(a: Seq<Seq<char>>, b: Seq<Seq<char>>)
    requires
        clean(a),
        clean(b),
    ensures
        clean(a + b),
{
    assert forall|i: int| 0 <= i < (a + b).len() implies neutral(#[trigger] (a + b)[i]) by {
        if i >= a.len() {
            assert((a + b)[i] == b[i - a.len()]);
        } else {
            assert((a + b)[i] == a[i]);
        }
    }
}

proof fn lemma_clean_empty()
    ensures
        clean(Seq::<Seq<char>>::empty()),
{
}

proof fn lemma_clean_pair(f: Seq<char>, v: Seq<char>)
    requires
        neutral(f),
        neutral(v),
    ensures
        clean(seq![f, v]),
{
    let p = seq![f, v];
    assert forall|i: int| 0 <= i < p.len() implies neutral(#[trigger] p[i]) by {
        if i == 0 {
            assert(p[i] == f);
        } else {
            assert(p[i] == v);
        }
    }
}

proof fn lemma_clean_pairs2(f1: Seq<char>, v1: Seq<char>, f2: Seq<char>, v2: Seq<char>)
    requires
        neutral(f1),
        neutral(f2),
        neutral(v1),
        neutral(v2),
    ensures
        clean(seq![f1, v1, f2, v2]),
{
    lemma_clean_pair(f1, v1);
    lemma_clean_pair(f2, v2);
    lemma_clean_add(seq![f1, v1], seq![f2, v2]);
    assert(seq![f1, v1] + seq![f2, v2] =~= seq![f1, v1, f2, v2]);
}

proof fn lemma_clean_pairs3(f1: Seq<char>, v1: Seq<char>, f2: Seq<char>, v2: Seq<char>, f3: Seq<char>, v3: Seq<char>)
    requires
        neutral(f1),
        neutral(f2),
        neutral(f3),
        neutral(v1),
        neutral(v2),
        neutral(v3),
    ensures
        clean(seq![f1, v1, f2, v2, f3, v3]),
{
    lemma_clean_pairs2(f1, v1, f2, v2);
    lemma_clean_pair(f3, v3);
    lemma_clean_add(seq![f1, v1, f2, v2], seq![f3, v3]);
    assert(seq![f1, v1, f2, v2] + seq![f3, v3] =~= seq![f1, v1, f2, v2, f3, v3]);
}

proof fn lemma_clean_opt(c: bool, f: Seq<char>, v: Seq<char>)
    requires
        neutral(f),
        c ==> neutral(v),
    ensures
        clean(opt_pair(c, f, v)),
{
    if c {
        lemma_clean_pair(f, v);
    } else {
        lemma_clean_empty();
    }
}

/// Every flag the compiler writes, but for the codec selectors and the
/// scale filter, is neutral.
proof fn lemma_all_plain()
    ensures
        neutral("-adaptive_b"@),
        neutral("-adaptive_i"@),
        neutral("-aq-mode"@),
        neutral("-aq-strength"@),
        neutral("-auto-alt-ref"@),
        neutral("-b:a"@),
        neutral("-b:v"@),
        neutral("-b_ref_mode"@),
        neutral("-bf"@),
        neutral("-bufsize"@),
        neutral("-cpu-used"@),
        neutral("-cq"@),
        neutral("-crf"@),
        neutral("-deadline"@),
        neutral("-frame-parallel"@),
        neutral("-g"@),
        neutral("-global_quality"@),
        neutral("-hwaccel"@),
        neutral("-i"@),
        neutral("-lag-in-frames"@),
        neutral("-look_ahead"@),
        neutral("-look_ahead_depth"@),
        neutral("-maxrate"@),
        neutral("-minrate"@),
        neutral("-multipass"@),
        neutral("-preset"@),
        neutral("-profile:v"@),
        neutral("-progress"@),
        neutral("-q"@),
        neutral("-qp"@),
        neutral("-qp_b"@),
        neutral("-qp_i"@),
        neutral("-qp_p"@),
        neutral("-quality"@),
        neutral("-rc"@),
        neutral("-rc-lookahead"@),
        neutral("-refs"@),
        neutral("-row-mt"@),
        neutral("-spatial-aq"@),
        neutral("-stats_period"@),
        neutral("-svtav1-params"@),
        neutral("-tile-columns"@),
        neutral("-tile-rows"@),
        neutral("-tile_columns"@),
        neutral("-tile_rows"@),
        neutral("-tiles"@),
        neutral("-tune"@),
        neutral("-usage"@),
        neutral("-x265-params"@),
        neutral("-y"@),
{
    reveal_strlit("-adaptive_b");
    lemma_plain("-adaptive_b"@);
    lemma_neutral_flag("-adaptive_b"@);
    reveal_strlit("-adaptive_i");
    lemma_plain("-adaptive_i"@);
    lemma_neutral_flag("-adaptive_i"@);
    reveal_strlit("-aq-mode");
    lemma_plain("-aq-mode"@);
    lemma_neutral_flag("-aq-mode"@);
    reveal_strlit("-aq-strength");
    lemma_plain("-aq-strength"@);
    lemma_neutral_flag("-aq-strength"@);
    reveal_strlit("-auto-alt-ref");
    lemma_plain("-auto-alt-ref"@);
    lemma_neutral_flag("-auto-alt-ref"@);
    reveal_strlit("-b:a");
    lemma_plain("-b:a"@);
    lemma_neutral_flag("-b:a"@);
    reveal_strlit("-b:v");
    lemma_plain("-b:v"@);
    lemma_neutral_flag("-b:v"@);
    reveal_strlit("-b_ref_mode");
    lemma_plain("-b_ref_mode"@);
    lemma_neutral_flag("-b_ref_mode"@);
    reveal_strlit("-bf");
    lemma_plain("-bf"@);
    lemma_neutral_flag("-bf"@);
    reveal_strlit("-bufsize");
    lemma_plain("-bufsize"@);
    lemma_neutral_flag("-bufsize"@);
    reveal_strlit("-cpu-used");
    lemma_plain("-cpu-used"@);
    lemma_neutral_flag("-cpu-used"@);
    reveal_strlit("-cq");
    lemma_plain("-cq"@);
    lemma_neutral_flag("-cq"@);
    reveal_strlit("-crf");
    lemma_plain("-crf"@);
    lemma_neutral_flag("-crf"@);
    reveal_strlit("-deadline");
    lemma_plain("-deadline"@);
    lemma_neutral_flag("-deadline"@);
    reveal_strlit("-frame-parallel");
    lemma_plain("-frame-parallel"@);
    lemma_neutral_flag("-frame-parallel"@);
    reveal_strlit("-g");
    lemma_plain("-g"@);
    lemma_neutral_flag("-g"@);
    reveal_strlit("-global_quality");
    lemma_plain("-global_quality"@);
    lemma_neutral_flag("-global_quality"@);
    reveal_strlit("-hwaccel");
    lemma_plain("-hwaccel"@);
    lemma_neutral_flag("-hwaccel"@);
    reveal_strlit("-i");
    lemma_plain("-i"@);
    lemma_neutral_flag("-i"@);
    reveal_strlit("-lag-in-frames");
    lemma_plain("-lag-in-frames"@);
    lemma_neutral_flag("-lag-in-frames"@);
    reveal_strlit("-look_ahead");
    lemma_plain("-look_ahead"@);
    lemma_neutral_flag("-look_ahead"@);
    reveal_strlit("-look_ahead_depth");
    lemma_plain("-look_ahead_depth"@);
    lemma_neutral_flag("-look_ahead_depth"@);
    reveal_strlit("-maxrate");
    lemma_plain("-maxrate"@);
    lemma_neutral_flag("-maxrate"@);
    reveal_strlit("-minrate");
    lemma_plain("-minrate"@);
    lemma_neutral_flag("-minrate"@);
    reveal_strlit("-multipass");
    lemma_plain("-multipass"@);
    lemma_neutral_flag("-multipass"@);
    reveal_strlit("-preset");
    lemma_plain("-preset"@);
    lemma_neutral_flag("-preset"@);
    reveal_strlit("-profile:v");
    lemma_plain("-profile:v"@);
    lemma_neutral_flag("-profile:v"@);
    reveal_strlit("-progress");
    lemma_plain("-progress"@);
    lemma_neutral_flag("-progress"@);
    reveal_strlit("-q");
    lemma_plain("-q"@);
    lemma_neutral_flag("-q"@);
    reveal_strlit("-qp");
    lemma_plain("-qp"@);
    lemma_neutral_flag("-qp"@);
    reveal_strlit("-qp_b");
    lemma_plain("-qp_b"@);
    lemma_neutral_flag("-qp_b"@);
    reveal_strlit("-qp_i");
    lemma_plain("-qp_i"@);
    lemma_neutral_flag("-qp_i"@);
    reveal_strlit("-qp_p");
    lemma_plain("-qp_p"@);
    lemma_neutral_flag("-qp_p"@);
    reveal_strlit("-quality");
    lemma_plain("-quality"@);
    lemma_neutral_flag("-quality"@);
    reveal_strlit("-rc");
    lemma_plain("-rc"@);
    lemma_neutral_flag("-rc"@);
    reveal_strlit("-rc-lookahead");
    lemma_plain("-rc-lookahead"@);
    lemma_neutral_flag("-rc-lookahead"@);
    reveal_strlit("-refs");
    lemma_plain("-refs"@);
    lemma_neutral_flag("-refs"@);
    reveal_strlit("-row-mt");
    lemma_plain("-row-mt"@);
    lemma_neutral_flag("-row-mt"@);
    reveal_strlit("-spatial-aq");
    lemma_plain("-spatial-aq"@);
    lemma_neutral_flag("-spatial-aq"@);
    reveal_strlit("-stats_period");
    lemma_plain("-stats_period"@);
    lemma_neutral_flag("-stats_period"@);
    reveal_strlit("-svtav1-params");
    lemma_plain("-svtav1-params"@);
    lemma_neutral_flag("-svtav1-params"@);
    reveal_strlit("-tile-columns");
    lemma_plain("-tile-columns"@);
    lemma_neutral_flag("-tile-columns"@);
    reveal_strlit("-tile-rows");
    lemma_plain("-tile-rows"@);
    lemma_neutral_flag("-tile-rows"@);
    reveal_strlit("-tile_columns");
    lemma_plain("-tile_columns"@);
    lemma_neutral_flag("-tile_columns"@);
    reveal_strlit("-tile_rows");
    lemma_plain("-tile_rows"@);
    lemma_neutral_flag("-tile_rows"@);
    reveal_strlit("-tiles");
    lemma_plain("-tiles"@);
    lemma_neutral_flag("-tiles"@);
    reveal_strlit("-tune");
    lemma_plain("-tune"@);
    lemma_neutral_flag("-tune"@);
    reveal_strlit("-usage");
    lemma_plain("-usage"@);
    lemma_neutral_flag("-usage"@);
    reveal_strlit("-x265-params");
    lemma_plain("-x265-params"@);
    lemma_neutral_flag("-x265-params"@);
    reveal_strlit("-y");
    lemma_plain("-y"@);
    lemma_neutral_flag("-y"@);
}

/// Every fixed option value the compiler writes is neutral.
proof fn lemma_literal_values()
    ensures
        neutral("cuda"@),
        neutral("qsv"@),
        neutral("d3d11va"@),
        neutral("vbr"@),
        neutral("cbr"@),
        neutral("constqp"@),
        neutral("p1"@),
        neutral("p3"@),
        neutral("p4"@),
        neutral("p6"@),
        neutral("p7"@),
        neutral("veryfast"@),
        neutral("faster"@),
        neutral("medium"@),
        neutral("slower"@),
        neutral("veryslow"@),
        neutral("1"@),
        neutral("0"@),
        neutral("cqp"@),
        neutral("vbr_peak"@),
        neutral("8"@),
        neutral("6"@),
        neutral("4"@),
        neutral("2"@),
        neutral("good"@),
        neutral("12"@),
        neutral("10"@),
        neutral("5"@),
        neutral("copy"@),
        neutral("aac"@),
        neutral("libmp3lame"@),
        neutral("flac"@),
        neutral("pipe:1"@),
        neutral("0.5"@),
        neutral("hq"@),
        neutral("ll"@),
        neutral("ull"@),
        neutral("lossless"@),
        neutral("disabled"@),
        neutral("qres"@),
        neutral("fullres"@),
        neutral("each"@),
        neutral("middle"@),
        neutral("transcoding"@),
        neutral("ultralowlatency"@),
        neutral("lowlatency"@),
        neutral("webcam"@),
        neutral("speed"@),
        neutral("balanced"@),
        neutral("quality"@),
        neutral("film"@),
        neutral("animation"@),
        neutral("grain"@),
        neutral("stillimage"@),
        neutral("psnr"@),
        neutral("ssim"@),
        neutral("fastdecode"@),
        neutral("zerolatency"@),
        neutral("baseline"@),
        neutral("main"@),
        neutral("high"@),
        neutral("high10"@),
        neutral("high444"@),
        neutral("ultrafast"@),
        neutral("fast"@),
        neutral("slow"@),
{
    reveal_strlit("cuda");
    lemma_value("cuda"@);
    reveal_strlit("qsv");
    lemma_value("qsv"@);
    reveal_strlit("d3d11va");
    lemma_value("d3d11va"@);
    reveal_strlit("vbr");
    lemma_value("vbr"@);
    reveal_strlit("cbr");
    lemma_value("cbr"@);
    reveal_strlit("constqp");
    lemma_value("constqp"@);
    reveal_strlit("p1");
    lemma_value("p1"@);
    reveal_strlit("p3");
    lemma_value("p3"@);
    reveal_strlit("p4");
    lemma_value("p4"@);
    reveal_strlit("p6");
    lemma_value("p6"@);
    reveal_strlit("p7");
    lemma_value("p7"@);
    reveal_strlit("veryfast");
    lemma_value("veryfast"@);
    reveal_strlit("faster");
    lemma_value("faster"@);
    reveal_strlit("medium");
    lemma_value("medium"@);
    reveal_strlit("slower");
    lemma_value("slower"@);
    reveal_strlit("veryslow");
    lemma_value("veryslow"@);
    reveal_strlit("1");
    lemma_value("1"@);
    reveal_strlit("0");
    lemma_value("0"@);
    reveal_strlit("cqp");
    lemma_value("cqp"@);
    reveal_strlit("vbr_peak");
    lemma_value("vbr_peak"@);
    reveal_strlit("8");
    lemma_value("8"@);
    reveal_strlit("6");
    lemma_value("6"@);
    reveal_strlit("4");
    lemma_value("4"@);
    reveal_strlit("2");
    lemma_value("2"@);
    reveal_strlit("good");
    lemma_value("good"@);
    reveal_strlit("12");
    lemma_value("12"@);
    reveal_strlit("10");
    lemma_value("10"@);
    reveal_strlit("5");
    lemma_value("5"@);
    reveal_strlit("copy");
    lemma_value("copy"@);
    reveal_strlit("aac");
    lemma_value("aac"@);
    reveal_strlit("libmp3lame");
    lemma_value("libmp3lame"@);
    reveal_strlit("flac");
    lemma_value("flac"@);
    reveal_strlit("pipe:1");
    lemma_value("pipe:1"@);
    reveal_strlit("0.5");
    lemma_value("0.5"@);
    reveal_strlit("hq");
    lemma_value("hq"@);
    reveal_strlit("ll");
    lemma_value("ll"@);
    reveal_strlit("ull");
    lemma_value("ull"@);
    reveal_strlit("lossless");
    lemma_value("lossless"@);
    reveal_strlit("disabled");
    lemma_value("disabled"@);
    reveal_strlit("qres");
    lemma_value("qres"@);
    reveal_strlit("fullres");
    lemma_value("fullres"@);
    reveal_strlit("each");
    lemma_value("each"@);
    reveal_strlit("middle");
    lemma_value("middle"@);
    reveal_strlit("transcoding");
    lemma_value("transcoding"@);
    reveal_strlit("ultralowlatency");
    lemma_value("ultralowlatency"@);
    reveal_strlit("lowlatency");
    lemma_value("lowlatency"@);
    reveal_strlit("webcam");
    lemma_value("webcam"@);
    reveal_strlit("speed");
    lemma_value("speed"@);
    reveal_strlit("balanced");
    lemma_value("balanced"@);
    reveal_strlit("quality");
    lemma_value("quality"@);
    reveal_strlit("film");
    lemma_value("film"@);
    reveal_strlit("animation");
    lemma_value("animation"@);
    reveal_strlit("grain");
    lemma_value("grain"@);
    reveal_strlit("stillimage");
    lemma_value("stillimage"@);
    reveal_strlit("psnr");
    lemma_value("psnr"@);
    reveal_strlit("ssim");
    lemma_value("ssim"@);
    reveal_strlit("fastdecode");
    lemma_value("fastdecode"@);
    reveal_strlit("zerolatency");
    lemma_value("zerolatency"@);
    reveal_strlit("baseline");
    lemma_value("baseline"@);
    reveal_strlit("main");
    lemma_value("main"@);
    reveal_strlit("high");
    lemma_value("high"@);
    reveal_strlit("high10");
    lemma_value("high10"@);
    reveal_strlit("high444");
    lemma_value("high444"@);
    reveal_strlit("ultrafast");
    lemma_value("ultrafast"@);
    reveal_strlit("fast");
    lemma_value("fast"@);
    reveal_strlit("slow");
    lemma_value("slow"@);
}

/// Decimal numbers, bitrates and tenths are neutral: they start with a digit.
proof fn lemma_number_values(n: nat)
    ensures
        neutral(decimal(n)),
        neutral(kbps(n)),
        neutral(tenths(n)),
{
    lemma_decimal_digits(n);
    lemma_decimal_digits(n / 10);
    let d = decimal(n);
    assert(is_digit(d[0]));
    lemma_value(d);
    assert((d + "k"@)[0] == d[0]);
    lemma_value(d + "k"@);
    let t = decimal(n / 10) + "."@ + decimal(n % 10);
    assert(is_digit(decimal(n / 10)[0]));
    assert(t[0] == decimal(n / 10)[0]);
    lemma_value(t);
}

proof fn lemma_colon_first(parts: Seq<Seq<char>>)
    requires
        parts.len() > 0,
        parts[0].len() > 0,
    ensures
        colon_joined(parts).len() > 0,
        colon_joined(parts)[0] == parts[0][0],
    decreases parts.len(),
{
    if parts.len() > 1 {
        lemma_colon_first(parts.drop_last());
        let c = colon_joined(parts.drop_last());
        assert((c + ":"@ + parts.last())[0] == c[0]);
    }
}

/// Every value derived from the settings is neutral.
proof fn lemma_values_neutral(s: TranscodeSettings)
    ensures
        neutral(decimal(s.crf as nat)),
        neutral(decimal(s.crf as nat + 2)),
        neutral(kbps(s.target_bitrate as nat)),
        neutral(kbps(2 * s.target_bitrate as nat)),
        neutral(kbps(s.max_bitrate as nat)),
        neutral(kbps(s.audio_bitrate as nat)),
        neutral(decimal(s.bframes as nat)),
        neutral(decimal(s.ref_frames as nat)),
        neutral(decimal(s.lookahead as nat)),
        neutral(decimal(s.aq_strength as nat)),
        neutral(tenths(s.aq_strength as nat)),
        neutral(decimal(s.aq_mode.spec_ffmpeg_value() as nat)),
        neutral(decimal(s.qsv_la_depth as nat)),
        neutral(decimal(s.vp9_tile_columns as nat)),
        neutral(decimal(s.vp9_tile_rows as nat)),
        neutral(decimal(s.vp9_lag_in_frames as nat)),
        neutral(decimal(s.av1_tile_columns as nat)),
        neutral(decimal(s.av1_tile_rows as nat)),
        neutral(decimal(s.gop_size as nat)),
        neutral(decimal(s.av1_tile_columns as nat) + "x"@ + decimal(s.av1_tile_rows as nat)),
        neutral(
            "film-grain="@ + decimal(s.svtav1_film_grain as nat) + (if s.svtav1_film_grain_denoise {
                ":film-grain-denoise=1"@
            } else {
                seq![]
            }),
        ),
        x265_params(s).len() > 0 ==> neutral(colon_joined(x265_params(s))),
        neutral(s.nvenc_tune.spec_ffmpeg_value()),
        neutral(s.nvenc_multipass.spec_ffmpeg_value()),
        neutral(s.nvenc_b_ref_mode.spec_ffmpeg_value()),
        neutral(s.amf_usage.spec_ffmpeg_value()),
        neutral(s.amf_quality.spec_ffmpeg_value()),
        neutral(s.x264_profile.spec_ffmpeg_value()),
        s.x264_tune.spec_ffmpeg_value() matches Some(t) ==> neutral(t),
        neutral(s.preset.spec_ffmpeg_name()),
        neutral(nvenc_preset(s.preset)),
        neutral(qsv_preset(s.preset)),
        neutral(vp9_cpu_used(s.preset)),
        neutral(aom_cpu_used(s.preset)),
        neutral(svt_preset(s.preset)),
{
    lemma_literal_values();
    lemma_number_values(s.crf as nat);
    lemma_number_values(s.crf as nat + 2);
    lemma_number_values(s.target_bitrate as nat);
    lemma_number_values(2 * s.target_bitrate as nat);
    lemma_number_values(s.max_bitrate as nat);
    lemma_number_values(s.audio_bitrate as nat);
    lemma_number_values(s.bframes as nat);
    lemma_number_values(s.ref_frames as nat);
    lemma_number_values(s.lookahead as nat);
    lemma_number_values(s.aq_strength as nat);
    lemma_number_values(s.aq_mode.spec_ffmpeg_value() as nat);
    lemma_number_values(s.qsv_la_depth as nat);
    lemma_number_values(s.vp9_tile_columns as nat);
    lemma_number_values(s.vp9_tile_rows as nat);
    lemma_number_values(s.vp9_lag_in_frames as nat);
    lemma_number_values(s.av1_tile_columns as nat);
    lemma_number_values(s.av1_tile_rows as nat);
    lemma_number_values(s.gop_size as nat);
    let c = decimal(s.av1_tile_columns as nat);
    lemma_decimal_digits(s.av1_tile_columns as nat);
    assert((c + "x"@ + decimal(s.av1_tile_rows as nat))[0] == c[0]);
    lemma_value(c + "x"@ + decimal(s.av1_tile_rows as nat));
    reveal_strlit("film-grain=");
    let g = "film-grain="@ + decimal(s.svtav1_film_grain as nat) + (if s.svtav1_film_grain_denoise {
        ":film-grain-denoise=1"@
    } else {
        seq![]
    });
    assert(g[0] == 'f');
    lemma_value(g);
    let parts = x265_params(s);
    if parts.len() > 0 {
        reveal_strlit("bframes=");
        reveal_strlit("ref=");
        reveal_strlit("aq-mode=");
        reveal_strlit("rc-lookahead=");
        let b = if s.bframes > 0 {
            seq!["bframes="@ + decimal(s.bframes as nat)]
        } else {
            seq![]
        };
        let r = if s.ref_frames > 0 {
            seq!["ref="@ + decimal(s.ref_frames as nat)]
        } else {
            seq![]
        };
        let a = if !(s.aq_mode is Disabled) {
            seq![
                "aq-mode="@ + decimal(s.aq_mode.spec_ffmpeg_value() as nat),
                "aq-strength="@ + tenths(s.aq_strength as nat),
            ]
        } else {
            seq![]
        };
        let l = if s.lookahead > 0 {
            seq!["rc-lookahead="@ + decimal(s.lookahead as nat)]
        } else {
            seq![]
        };
        assert(parts == b + r + a + l);
        if s.bframes > 0 {
            assert(parts[0] == "bframes="@ + decimal(s.bframes as nat));
        } else if s.ref_frames > 0 {
            assert(parts[0] == "ref="@ + decimal(s.ref_frames as nat));
        } else if !(s.aq_mode is Disabled) {
            assert(parts[0] == "aq-mode="@ + decimal(s.aq_mode.spec_ffmpeg_value() as nat));
        } else {
            assert(parts[0] == "rc-lookahead="@ + decimal(s.lookahead as nat));
        }
        assert(parts[0][0] == 'b' || parts[0][0] == 'r' || parts[0][0] == 'a');
        lemma_colon_first(parts);
        lemma_value(colon_joined(parts));
    }
}

proof fn lemma_clean_pairs4(
    f1: Seq<char>,
    v1: Seq<char>,
    f2: Seq<char>,
    v2: Seq<char>,
    f3: Seq<char>,
    v3: Seq<char>,
    f4: Seq<char>,
    v4: Seq<char>,
)
    requires
        neutral(f1),
        neutral(f2),
        neutral(f3),
        neutral(f4),
        neutral(v1),
        neutral(v2),
        neutral(v3),
        neutral(v4),
    ensures
        clean(seq![f1, v1, f2, v2, f3, v3, f4, v4]),
{
    lemma_clean_pairs2(f1, v1, f2, v2);
    lemma_clean_pairs2(f3, v3, f4, v4);
    lemma_clean_add(seq![f1, v1, f2, v2], seq![f3, v3, f4, v4]);
    assert(seq![f1, v1, f2, v2] + seq![f3, v3, f4, v4] =~= seq![f1, v1, f2, v2, f3, v3, f4, v4]);
}

proof fn lemma_hw_clean(hw: HwAccelType)
    ensures
        clean(spec_hwaccel_args(hw)),
{
    lemma_all_plain();
    lemma_literal_values();
    match hw {
        HwAccelType::Nvenc => lemma_clean_pair("-hwaccel"@, "cuda"@),
        HwAccelType::Qsv => lemma_clean_pair("-hwaccel"@, "qsv"@),
        HwAccelType::Amf => lemma_clean_pair("-hwaccel"@, "d3d11va"@),
        _ => lemma_clean_empty(),
    }
}

proof fn lemma_rc_clean(s: TranscodeSettings, hw: HwAccelType)
    ensures
        clean(spec_rate_control_args(s, hw)),
{
    lemma_all_plain();
    lemma_values_neutral(s);
    lemma_literal_values();
    let t = kbps(s.target_bitrate as nat);
    let m = kbps(s.max_bitrate as nat);
    match s.rate_control {
        RateControlMode::Crf => {
            lemma_clean_pair("-cq"@, decimal(s.crf as nat));
            lemma_clean_pair("-crf"@, decimal(s.crf as nat));
        },
        RateControlMode::Cbr => lemma_clean_pairs3(
            "-b:v"@,
            t,
            "-maxrate"@,
            t,
            "-bufsize"@,
            kbps(2 * s.target_bitrate as nat),
        ),
        RateControlMode::Vbr => lemma_clean_pairs3("-b:v"@, t, "-maxrate"@, m, "-bufsize"@, m),
        RateControlMode::Cqp => lemma_clean_pair("-qp"@, decimal(s.crf as nat)),
    }
}

proof fn lemma_nvenc_clean(s: TranscodeSettings)
    ensures
        clean(spec_nvenc_args(s)),
{
    lemma_all_plain();
    lemma_values_neutral(s);
    lemma_literal_values();
    lemma_clean_pair("-tune"@, s.nvenc_tune.spec_ffmpeg_value());
    match s.rate_control {
        RateControlMode::Vbr => lemma_clean_pairs3(
            "-rc"@,
            "vbr"@,
            "-b:v"@,
            kbps(s.target_bitrate as nat),
            "-maxrate"@,
            kbps(s.max_bitrate as nat),
        ),
        RateControlMode::Crf => lemma_clean_pairs2("-rc"@, "vbr"@, "-cq"@, decimal(s.crf as nat)),
        RateControlMode::Cbr => lemma_clean_pairs2("-rc"@, "cbr"@, "-b:v"@, kbps(s.target_bitrate as nat)),
        RateControlMode::Cqp => lemma_clean_pairs2("-rc"@, "constqp"@, "-qp"@, decimal(s.crf as nat)),
    }
    let a = seq!["-tune"@, s.nvenc_tune.spec_ffmpeg_value()] + spec_nvenc_rc(s);
    lemma_clean_add(seq!["-tune"@, s.nvenc_tune.spec_ffmpeg_value()], spec_nvenc_rc(s));
    let b = seq!["-preset"@, nvenc_preset(s.preset), "-multipass"@, s.nvenc_multipass.spec_ffmpeg_value()];
    lemma_clean_pairs2("-preset"@, nvenc_preset(s.preset), "-multipass"@, s.nvenc_multipass.spec_ffmpeg_value());
    lemma_clean_add(a, b);
    let bf = if s.bframes > 0 {
        seq!["-bf"@, decimal(s.bframes as nat), "-b_ref_mode"@, s.nvenc_b_ref_mode.spec_ffmpeg_value()]
    } else {
        seq![]
    };
    if s.bframes > 0 {
        lemma_clean_pairs2("-bf"@, decimal(s.bframes as nat), "-b_ref_mode"@, s.nvenc_b_ref_mode.spec_ffmpeg_value());
    }
    lemma_clean_add(a + b, bf);
    let la = opt_pair(s.lookahead > 0, "-rc-lookahead"@, decimal(s.lookahead as nat));
    lemma_clean_opt(s.lookahead > 0, "-rc-lookahead"@, decimal(s.lookahead as nat));
    lemma_clean_add(a + b + bf, la);
    let aq = if !(s.aq_mode is Disabled) {
        seq!["-spatial-aq"@, "1"@, "-aq-strength"@, decimal(s.aq_strength as nat)]
    } else {
        seq![]
    };
    if !(s.aq_mode is Disabled) {
        lemma_clean_pairs2("-spatial-aq"@, "1"@, "-aq-strength"@, decimal(s.aq_strength as nat));
    }
    lemma_clean_add(a + b + bf + la, aq);
}

proof fn lemma_qsv_clean(s: TranscodeSettings)
    ensures
        clean(spec_qsv_args(s)),
{
    lemma_all_plain();
    lemma_values_neutral(s);
    lemma_literal_values();
    let t = kbps(s.target_bitrate as nat);
    match s.rate_control {
        RateControlMode::Crf => lemma_clean_pair("-global_quality"@, decimal(s.crf as nat)),
        RateControlMode::Cbr => lemma_clean_pairs2("-b:v"@, t, "-maxrate"@, t),
        RateControlMode::Vbr => lemma_clean_pairs2("-b:v"@, t, "-maxrate"@, kbps(s.max_bitrate as nat)),
        RateControlMode::Cqp => lemma_clean_pair("-q"@, decimal(s.crf as nat)),
    }
    let p = seq!["-preset"@, qsv_preset(s.preset)];
    lemma_clean_pair("-preset"@, qsv_preset(s.preset));
    lemma_clean_add(spec_qsv_rc(s), p);
    let la = if s.qsv_la_depth > 0 {
        seq!["-look_ahead"@, "1"@, "-look_ahead_depth"@, decimal(s.qsv_la_depth as nat)]
    } else {
        seq![]
    };
    if s.qsv_la_depth > 0 {
        lemma_clean_pairs2("-look_ahead"@, "1"@, "-look_ahead_depth"@, decimal(s.qsv_la_depth as nat));
    }
    lemma_clean_add(spec_qsv_rc(s) + p, la);
    let o1 = opt_pair(s.qsv_adaptive_i, "-adaptive_i"@, "1"@);
    let o2 = opt_pair(s.qsv_adaptive_b, "-adaptive_b"@, "1"@);
    let o3 = opt_pair(s.bframes > 0, "-bf"@, decimal(s.bframes as nat));
    let o4 = opt_pair(s.ref_frames > 0, "-refs"@, decimal(s.ref_frames as nat));
    lemma_clean_opt(s.qsv_adaptive_i, "-adaptive_i"@, "1"@);
    lemma_clean_opt(s.qsv_adaptive_b, "-adaptive_b"@, "1"@);
    lemma_clean_opt(s.bframes > 0, "-bf"@, decimal(s.bframes as nat));
    lemma_clean_opt(s.ref_frames > 0, "-refs"@, decimal(s.ref_frames as nat));
    lemma_clean_add(o1, o2);
    lemma_clean_add(o1 + o2, o3);
    lemma_clean_add(o1 + o2 + o3, o4);
    lemma_clean_add(spec_qsv_rc(s) + p + la, spec_qsv_tail(s));
}

proof fn lemma_amf_clean(s: TranscodeSettings)
    ensures
        clean(spec_amf_args(s)),
{
    lemma_all_plain();
    lemma_values_neutral(s);
    lemma_literal_values();
    let h = seq!["-usage"@, s.amf_usage.spec_ffmpeg_value(), "-quality"@, s.amf_quality.spec_ffmpeg_value()];
    lemma_clean_pairs2("-usage"@, s.amf_usage.spec_ffmpeg_value(), "-quality"@, s.amf_quality.spec_ffmpeg_value());
    let c = decimal(s.crf as nat);
    let t = kbps(s.target_bitrate as nat);
    match s.rate_control {
        RateControlMode::Crf => lemma_clean_pairs4(
            "-rc"@,
            "cqp"@,
            "-qp_i"@,
            c,
            "-qp_p"@,
            c,
            "-qp_b"@,
            decimal(s.crf as nat + 2),
        ),
        RateControlMode::Cbr => lemma_clean_pairs2("-rc"@, "cbr"@, "-b:v"@, t),
        RateControlMode::Vbr => lemma_clean_pairs3("-rc"@, "vbr_peak"@, "-b:v"@, t, "-maxrate"@, kbps(s.max_bitrate as nat)),
        RateControlMode::Cqp => lemma_clean_pairs3("-rc"@, "cqp"@, "-qp_i"@, c, "-qp_p"@, c),
    }
    lemma_clean_add(h, spec_amf_rc(s));
    lemma_clean_opt(s.bframes > 0, "-bf"@, decimal(s.bframes as nat));
    lemma_clean_add(h + spec_amf_rc(s), opt_pair(s.bframes > 0, "-bf"@, decimal(s.bframes as nat)));
}

proof fn lemma_x264_clean(s: TranscodeSettings)
    ensures
        clean(spec_x264_args(s)),
{
    lemma_all_plain();
    lemma_values_neutral(s);
    lemma_literal_values();
    let a = seq!["-profile:v"@, s.x264_profile.spec_ffmpeg_value()];
    lemma_clean_pair("-profile:v"@, s.x264_profile.spec_ffmpeg_value());
    lemma_rc_clean(s, HwAccelType::Software);
    lemma_clean_add(a, spec_rate_control_args(s, HwAccelType::Software));
    let b = seq!["-preset"@, s.preset.spec_ffmpeg_name()];
    lemma_clean_pair("-preset"@, s.preset.spec_ffmpeg_name());
    lemma_clean_add(a + spec_rate_control_args(s, HwAccelType::Software), b);
    let tn = match s.x264_tune.spec_ffmpeg_value() {
        Some(t) => seq!["-tune"@, t],
        None => seq![],
    };
    match s.x264_tune.spec_ffmpeg_value() {
        Some(t) => lemma_clean_pair("-tune"@, t),
        None => lemma_clean_empty(),
    }
    lemma_clean_add(a + spec_rate_control_args(s, HwAccelType::Software) + b, tn);
    let o1 = opt_pair(s.bframes > 0, "-bf"@, decimal(s.bframes as nat));
    let o2 = opt_pair(s.ref_frames > 0, "-refs"@, decimal(s.ref_frames as nat));
    let o4 = opt_pair(s.lookahead > 0, "-rc-lookahead"@, decimal(s.lookahead as nat));
    lemma_clean_opt(s.bframes > 0, "-bf"@, decimal(s.bframes as nat));
    lemma_clean_opt(s.ref_frames > 0, "-refs"@, decimal(s.ref_frames as nat));
    lemma_clean_opt(s.lookahead > 0, "-rc-lookahead"@, decimal(s.lookahead as nat));
    if !(s.aq_mode is Disabled) {
        lemma_clean_pairs2(
            "-aq-mode"@,
            decimal(s.aq_mode.spec_ffmpeg_value() as nat),
            "-aq-strength"@,
            tenths(s.aq_strength as nat),
        );
    }
    lemma_clean_add(o1, o2);
    lemma_clean_add(o1 + o2, x264_aq(s));
    lemma_clean_add(o1 + o2 + x264_aq(s), o4);
    lemma_clean_add(a + spec_rate_control_args(s, HwAccelType::Software) + b + tn, spec_x264_tail(s));
}

proof fn lemma_x265_clean(s: TranscodeSettings)
    ensures
        clean(spec_x265_args(s)),
{
    lemma_all_plain();
    lemma_values_neutral(s);
    lemma_literal_values();
    lemma_rc_clean(s, HwAccelType::Software);
    let b = seq!["-preset"@, s.preset.spec_ffmpeg_name()];
    lemma_clean_pair("-preset"@, s.preset.spec_ffmpeg_name());
    lemma_clean_add(spec_rate_control_args(s, HwAccelType::Software), b);
    let tn = if x265_tune_ok(s.x264_tune) {
        seq!["-tune"@, s.x264_tune.spec_ffmpeg_value().unwrap()]
    } else {
        seq![]
    };
    if x265_tune_ok(s.x264_tune) {
        lemma_clean_pair("-tune"@, s.x264_tune.spec_ffmpeg_value().unwrap());
    }
    lemma_clean_add(spec_rate_control_args(s, HwAccelType::Software) + b, tn);
    lemma_clean_opt(x265_params(s).len() > 0, "-x265-params"@, colon_joined(x265_params(s)));
    lemma_clean_add(
        spec_rate_control_args(s, HwAccelType::Software) + b + tn,
        opt_pair(x265_params(s).len() > 0, "-x265-params"@, colon_joined(x265_params(s))),
    );
}

proof fn lemma_vp9_clean(s: TranscodeSettings)
    ensures
        clean(spec_vp9_args(s)),
{
    lemma_all_plain();
    lemma_values_neutral(s);
    lemma_literal_values();
    let t = kbps(s.target_bitrate as nat);
    match s.rate_control {
        RateControlMode::Cbr => lemma_clean_pairs3("-b:v"@, t, "-minrate"@, t, "-maxrate"@, t),
        RateControlMode::Vbr => lemma_clean_pairs2("-b:v"@, t, "-maxrate"@, kbps(s.max_bitrate as nat)),
        _ => lemma_clean_pairs2("-b:v"@, "0"@, "-crf"@, decimal(s.crf as nat)),
    }
    let f = seq!["-cpu-used"@, vp9_cpu_used(s.preset), "-deadline"@, "good"@, "-row-mt"@, "1"@];
    lemma_clean_pairs3("-cpu-used"@, vp9_cpu_used(s.preset), "-deadline"@, "good"@, "-row-mt"@, "1"@);
    lemma_clean_add(spec_vp9_rc(s), f);
    let o1 = opt_pair(s.vp9_tile_columns > 0, "-tile-columns"@, decimal(s.vp9_tile_columns as nat));
    let o2 = opt_pair(s.vp9_tile_rows > 0, "-tile-rows"@, decimal(s.vp9_tile_rows as nat));
    let o3 = opt_pair(s.vp9_frame_parallel, "-frame-parallel"@, "1"@);
    lemma_clean_opt(s.vp9_tile_columns > 0, "-tile-columns"@, decimal(s.vp9_tile_columns as nat));
    lemma_clean_opt(s.vp9_tile_rows > 0, "-tile-rows"@, decimal(s.vp9_tile_rows as nat));
    lemma_clean_opt(s.vp9_frame_parallel, "-frame-parallel"@, "1"@);
    let lag = opt_pair(s.vp9_lag_in_frames > 0, "-lag-in-frames"@, decimal(s.vp9_lag_in_frames as nat));
    lemma_clean_opt(s.vp9_lag_in_frames > 0, "-lag-in-frames"@, decimal(s.vp9_lag_in_frames as nat));
    let alt = if s.vp9_auto_alt_ref {
        seq!["-auto-alt-ref"@, "1"@] + lag
    } else {
        seq![]
    };
    if s.vp9_auto_alt_ref {
        lemma_clean_pair("-auto-alt-ref"@, "1"@);
        lemma_clean_add(seq!["-auto-alt-ref"@, "1"@], lag);
    }
    lemma_clean_add(o1, o2);
    lemma_clean_add(o1 + o2, o3);
    lemma_clean_add(o1 + o2 + o3, alt);
    lemma_clean_add(spec_vp9_rc(s) + f, spec_vp9_tail(s));
}

proof fn lemma_libaom_clean(s: TranscodeSettings)
    ensures
        clean(spec_libaom_args(s)),
{
    lemma_all_plain();
    lemma_values_neutral(s);
    lemma_literal_values();
    let t = kbps(s.target_bitrate as nat);
    let cbr = seq!["-b:v"@, t];
    match s.rate_control {
        RateControlMode::Cbr => lemma_clean_pair("-b:v"@, t),
        RateControlMode::Vbr => lemma_clean_pairs2("-b:v"@, t, "-maxrate"@, kbps(s.max_bitrate as nat)),
        _ => lemma_clean_pair("-crf"@, decimal(s.crf as nat)),
    }
    let tiles = decimal(s.av1_tile_columns as nat) + "x"@ + decimal(s.av1_tile_rows as nat);
    lemma_clean_pairs3("-cpu-used"@, aom_cpu_used(s.preset), "-row-mt"@, "1"@, "-tiles"@, tiles);
    lemma_clean_add(
        spec_av1_rc(s, cbr),
        seq!["-cpu-used"@, aom_cpu_used(s.preset), "-row-mt"@, "1"@, "-tiles"@, tiles],
    );
}

proof fn lemma_svtav1_clean(s: TranscodeSettings)
    ensures
        clean(spec_svtav1_args(s)),
{
    lemma_all_plain();
    lemma_values_neutral(s);
    lemma_literal_values();
    let t = kbps(s.target_bitrate as nat);
    let cbr = seq!["-b:v"@, t, "-rc"@, "1"@];
    match s.rate_control {
        RateControlMode::Cbr => lemma_clean_pairs2("-b:v"@, t, "-rc"@, "1"@),
        RateControlMode::Vbr => lemma_clean_pairs2("-b:v"@, t, "-maxrate"@, kbps(s.max_bitrate as nat)),
        _ => lemma_clean_pair("-crf"@, decimal(s.crf as nat)),
    }
    let p = seq!["-preset"@, svt_preset(s.preset)];
    lemma_clean_pair("-preset"@, svt_preset(s.preset));
    lemma_clean_add(spec_av1_rc(s, cbr), p);
    let grain = "film-grain="@ + decimal(s.svtav1_film_grain as nat) + (if s.svtav1_film_grain_denoise {
        ":film-grain-denoise=1"@
    } else {
        seq![]
    });
    let o1 = opt_pair(s.svtav1_film_grain > 0, "-svtav1-params"@, grain);
    lemma_clean_opt(s.svtav1_film_grain > 0, "-svtav1-params"@, grain);
    let tl = if s.av1_tile_columns > 0 || s.av1_tile_rows > 0 {
        seq!["-tile_columns"@, decimal(s.av1_tile_columns as nat), "-tile_rows"@, decimal(s.av1_tile_rows as nat)]
    } else {
        seq![]
    };
    if s.av1_tile_columns > 0 || s.av1_tile_rows > 0 {
        lemma_clean_pairs2("-tile_columns"@, decimal(s.av1_tile_columns as nat), "-tile_rows"@, decimal(s.av1_tile_rows as nat));
    }
    lemma_clean_add(o1, tl);
    lemma_clean_add(spec_av1_rc(s, cbr) + p, spec_svtav1_tail(s));
}

/// The family option block holds no codec selector and no scale filter.
proof fn lemma_family_clean(s: TranscodeSettings, enc: Seq<char>, hw: HwAccelType)
    ensures
        clean(spec_family_args(s, enc, hw)),
{
    lemma_all_plain();
    lemma_values_neutral(s);
    lemma_literal_values();
    if enc == "h264_nvenc"@ || enc == "hevc_nvenc"@ || enc == "av1_nvenc"@ {
        lemma_nvenc_clean(s);
    } else if enc == "h264_qsv"@ || enc == "hevc_qsv"@ || enc == "av1_qsv"@ || enc == "vp9_qsv"@ {
        lemma_qsv_clean(s);
    } else if enc == "h264_amf"@ || enc == "hevc_amf"@ || enc == "av1_amf"@ {
        lemma_amf_clean(s);
    } else if enc == "libx264"@ {
        lemma_x264_clean(s);
    } else if enc == "libx265"@ {
        lemma_x265_clean(s);
    } else if enc == "libvpx-vp9"@ {
        lemma_vp9_clean(s);
    } else if enc == "libaom-av1"@ {
        lemma_libaom_clean(s);
    } else if enc == "libsvtav1"@ {
        lemma_svtav1_clean(s);
    } else {
        lemma_rc_clean(s, hw);
        lemma_clean_pair("-preset"@, s.preset.spec_ffmpeg_name());
        lemma_clean_add(spec_rate_control_args(s, hw), seq!["-preset"@, s.preset.spec_ffmpeg_name()]);
    }
}

/// How many arguments equal `t`.
pub open spec fn tok_count(args: Seq<Seq<char>>, t: Seq<char>) -> nat
    decreases args.len(),
{
    if args.len() == 0 {
        0
    } else {
        tok_count(args.drop_last(), t) + if args.last() == t {
            1nat
        } else {
            0nat
        }
    }
}

/// How many arguments are scale filter values.
pub open spec fn scale_values(args: Seq<Seq<char>>) -> nat
    decreases args.len(),
{
    if args.len() == 0 {
        0
    } else {
        scale_values(args.drop_last()) + if scale_prefixed(args.last()) {
            1nat
        } else {
            0nat
        }
    }
}

proof fn lemma_tok_add(a: Seq<Seq<char>>, b: Seq<Seq<char>>, t: Seq<char>)
    ensures
        tok_count(a + b, t) == tok_count(a, t) + tok_count(b, t),
        scale_values(a + b) == scale_values(a) + scale_values(b),
    decreases b.len(),
{
    if b.len() == 0 {
        assert(a + b =~= a);
    } else {
        lemma_tok_add(a, b.drop_last(), t);
        assert((a + b).drop_last() =~= a + b.drop_last());
        assert((a + b).last() == b.last());
    }
}

proof fn lemma_tok_clean(a: Seq<Seq<char>>, t: Seq<char>)
    requires
        forall|i: int| 0 <= i < a.len() ==> neutral(#[trigger] a[i]),
        t == "-c:v"@ || t == "-c:a"@ || t == "-vf"@,
    ensures
        tok_count(a, t) == 0,
        scale_values(a) == 0,
    decreases a.len(),
{
    if a.len() > 0 {
        assert(neutral(a[a.len() - 1]));
        assert forall|i: int| 0 <= i < a.drop_last().len() implies neutral(#[trigger] a.drop_last()[i]) by {
            assert(a.drop_last()[i] == a[i]);
        }
        lemma_tok_clean(a.drop_last(), t);
    }
}

proof fn lemma_tok_pair(f: Seq<char>, v: Seq<char>, t: Seq<char>)
    ensures
        tok_count(seq![f, v], t) == (if f == t {
            1nat
        } else {
            0nat
        }) + (if v == t {
            1nat
        } else {
            0nat
        }),
        scale_values(seq![f, v]) == (if scale_prefixed(f) {
            1nat
        } else {
            0nat
        }) + (if scale_prefixed(v) {
            1nat
        } else {
            0nat
        }),
{
    let p = seq![f, v];
    let q = seq![f];
    let e = Seq::<Seq<char>>::empty();
    assert(p.drop_last() =~= q);
    assert(q.drop_last() =~= e);
    assert(p.last() == v && q.last() == f);
    assert(tok_count(e, t) == 0 && scale_values(e) == 0);
    assert(tok_count(q, t) == tok_count(e, t) + if f == t {
        1nat
    } else {
        0nat
    });
    assert(scale_values(q) == scale_values(e) + if scale_prefixed(f) {
        1nat
    } else {
        0nat
    });
}

proof fn lemma_selectors_differ()
    ensures
        "-c:v"@ != "-c:a"@,
        "-c:v"@ != "-vf"@,
        "-c:a"@ != "-vf"@,
        neutral("-i"@),
        neutral("-b:a"@),
        !scale_prefixed("-c:v"@),
        !scale_prefixed("-c:a"@),
        !scale_prefixed("-vf"@),
{
    reveal_strlit("-c:v");
    reveal_strlit("-c:a");
    reveal_strlit("-vf");
    reveal_strlit("scale=");
    assert("-c:v"@[3] != "-c:a"@[3]);
    assert("-c:v"@.len() != "-vf"@.len());
    assert("-c:a"@.len() != "-vf"@.len());
    lemma_all_plain();
}

/// The counts of the codec selectors, the scale flag and scale filter
/// values in one block.
pub open spec fn counts(a: Seq<Seq<char>>, cv: nat, ca: nat, vf: nat, sc: nat) -> bool {
    &&& tok_count(a, "-c:v"@) == cv
    &&& tok_count(a, "-c:a"@) == ca
    &&& tok_count(a, "-vf"@) == vf
    &&& scale_values(a) == sc
}

proof fn lemma_counts_add(
    a: Seq<Seq<char>>,
    b: Seq<Seq<char>>,
    cv1: nat,
    ca1: nat,
    vf1: nat,
    sc1: nat,
    cv2: nat,
    ca2: nat,
    vf2: nat,
    sc2: nat,
)
    requires
        counts(a, cv1, ca1, vf1, sc1),
        counts(b, cv2, ca2, vf2, sc2),
    ensures
        counts(a + b, cv1 + cv2, ca1 + ca2, vf1 + vf2, sc1 + sc2),
{
    lemma_tok_add(a, b, "-c:v"@);
    lemma_tok_add(a, b, "-c:a"@);
    lemma_tok_add(a, b, "-vf"@);
}

proof fn lemma_counts_clean(a: Seq<Seq<char>>)
    requires
        clean(a),
    ensures
        counts(a, 0, 0, 0, 0),
{
    lemma_tok_clean(a, "-c:v"@);
    lemma_tok_clean(a, "-c:a"@);
    lemma_tok_clean(a, "-vf"@);
}

/// Counts of a pair whose flag is one of the three and whose value is neutral.
proof fn lemma_counts_selector_pair(f: Seq<char>, v: Seq<char>)
    requires
        f == "-c:v"@ || f == "-c:a"@ || f == "-vf"@,
        neutral(v),
    ensures
        counts(
            seq![f, v],
            if f == "-c:v"@ {
                1nat
            } else {
                0nat
            },
            if f == "-c:a"@ {
                1nat
            } else {
                0nat
            },
            if f == "-vf"@ {
                1nat
            } else {
                0nat
            },
            0,
        ),
{
    lemma_selectors_differ();
    lemma_tok_pair(f, v, "-c:v"@);
    lemma_tok_pair(f, v, "-c:a"@);
    lemma_tok_pair(f, v, "-vf"@);
}

proof fn lemma_audio_counts(s: TranscodeSettings)
    ensures
        counts(spec_audio_args(s), 0, 1, 0, 0),
{
    lemma_selectors_differ();
    lemma_values_neutral(s);
    lemma_literal_values();
    let a = spec_audio_args(s);
    let head = seq!["-c:a"@, a[1]];
    lemma_counts_selector_pair("-c:a"@, a[1]);
    match s.audio_codec {
        crate::preset::AudioCodec::Copy | crate::preset::AudioCodec::Flac => {
            assert(a =~= head);
        },
        _ => {
            let tail = seq!["-b:a"@, kbps(s.audio_bitrate as nat)];
            lemma_clean_pair("-b:a"@, kbps(s.audio_bitrate as nat));
            lemma_counts_clean(tail);
            lemma_counts_add(head, tail, 0, 1, 0, 0, 0, 0, 0, 0);
            assert(head + tail =~= a);
        },
    }
}

proof fn lemma_scale_counts(res: VideoResolution)
    ensures
        counts(spec_scale_args(res), 0, 0, scale_count(res), scale_count(res)),
{
    lemma_selectors_differ();
    reveal_strlit("scale=");
    if res is Original {
        lemma_clean_empty();
        lemma_counts_clean(spec_scale_args(res));
    } else {
        let v = scale_filter(res.spec_dimensions().0, res.spec_dimensions().1);
        assert(v.take(6) =~= "scale="@);
        assert(v != "-c:v"@ && v != "-c:a"@ && v != "-vf"@) by {
            reveal_strlit("-c:v");
            reveal_strlit("-c:a");
            reveal_strlit("-vf");
            assert(v[0] == 's');
        }
        lemma_tok_pair("-vf"@, v, "-c:v"@);
        lemma_tok_pair("-vf"@, v, "-c:a"@);
        lemma_tok_pair("-vf"@, v, "-vf"@);
    }
}

/// The number of scale filters a resolution mode asks for.
pub open spec fn scale_count(res: VideoResolution) -> nat {
    if res is Original {
        0
    } else {
        1
    }
}

proof fn lemma_command_counts(
    s: TranscodeSettings,
    input: Seq<char>,
    output: Seq<char>,
    enc: Seq<char>,
    hw: HwAccelType,
)
    requires
        neutral(input),
        neutral(output),
        neutral(enc),
    ensures
        counts(
            spec_command(s, input, output, enc, hw),
            1,
            1,
            scale_count(s.resolution),
            scale_count(s.resolution),
        ),
{
    lemma_selectors_differ();
    lemma_all_plain();
    lemma_literal_values();
    lemma_values_neutral(s);
    let h = spec_hwaccel_args(hw);
    lemma_hw_clean(hw);
    lemma_counts_clean(h);
    let i = seq!["-i"@, input];
    lemma_clean_pair("-i"@, input);
    lemma_counts_clean(i);
    lemma_counts_add(h, i, 0, 0, 0, 0, 0, 0, 0, 0);
    let vh = seq!["-c:v"@, enc];
    lemma_counts_selector_pair("-c:v"@, enc);
    let sc = spec_scale_args(s.resolution);
    lemma_scale_counts(s.resolution);
    let n = scale_count(s.resolution);
    lemma_counts_add(vh, sc, 1, 0, 0, 0, 0, 0, n, n);
    let f = spec_family_args(s, enc, hw);
    lemma_family_clean(s, enc, hw);
    lemma_counts_clean(f);
    lemma_counts_add(vh + sc, f, 1, 0, n, n, 0, 0, 0, 0);
    let g = opt_pair(s.gop_size > 0, "-g"@, decimal(s.gop_size as nat));
    lemma_clean_opt(s.gop_size > 0, "-g"@, decimal(s.gop_size as nat));
    lemma_counts_clean(g);
    lemma_counts_add(vh + sc + f, g, 1, 0, n, n, 0, 0, 0, 0);
    lemma_counts_add(h + i, vh + sc + f + g, 0, 0, 0, 0, 1, 0, n, n);
    let a = spec_audio_args(s);
    lemma_audio_counts(s);
    lemma_counts_add(h + i + (vh + sc + f + g), a, 1, 0, n, n, 0, 1, 0, 0);
    let t = seq!["-progress"@, "pipe:1"@, "-stats_period"@, "0.5"@, "-y"@, output];
    lemma_clean_pairs3("-progress"@, "pipe:1"@, "-stats_period"@, "0.5"@, "-y"@, output);
    lemma_counts_clean(t);
    lemma_counts_add(h + i + (vh + sc + f + g) + a, t, 1, 1, n, n, 0, 0, 0, 0);
    assert(h + i + (vh + sc + f + g) + a + t =~= spec_command(s, input, output, enc, hw));
}

/// Whatever the settings, encoder and acceleration category, and for
/// input and output paths that are neither a codec selector, nor `-vf`,
/// nor a scale filter value, the compiled argument list is non-empty and
/// holds exactly one video-codec flag and exactly one audio-codec flag.
pub proof fn lemma_one_codec_flag_each(
    s: TranscodeSettings,
    input: Seq<char>,
    output: Seq<char>,
    enc: Seq<char>,
    hw: HwAccelType,
)
    requires
        neutral(input),
        neutral(output),
        neutral(enc),
    ensures
        spec_command(s, input, output, enc, hw).len() > 0,
        tok_count(spec_command(s, input, output, enc, hw), "-c:v"@) == 1,
        tok_count(spec_command(s, input, output, enc, hw), "-c:a"@) == 1,
{
    lemma_command_counts(s, input, output, enc, hw);
}

/// Keeping the source resolution emits no scale filter (neither `-vf` nor
/// any `scale=` value); any other mode emits exactly one `-vf` and exactly
/// one `scale=` value, which holds the mode's width and height.
pub proof fn lemma_scale_filter_follows_resolution(
    s: TranscodeSettings,
    input: Seq<char>,
    output: Seq<char>,
    enc: Seq<char>,
    hw: HwAccelType,
)
    requires
        neutral(input),
        neutral(output),
        neutral(enc),
    ensures
        s.resolution is Original ==> tok_count(spec_command(s, input, output, enc, hw), "-vf"@) == 0
            && scale_values(spec_command(s, input, output, enc, hw)) == 0,
        !(s.resolution is Original) ==> tok_count(spec_command(s, input, output, enc, hw), "-vf"@) == 1
            && scale_values(spec_command(s, input, output, enc, hw)) == 1,
        !(s.resolution is Original) ==> ({
            let cmd = spec_command(s, input, output, enc, hw);
            let k = spec_hwaccel_args(hw).len() as int + 4;
            &&& cmd[k] == "-vf"@
            &&& cmd[k + 1] == scale_filter(s.resolution.spec_dimensions().0, s.resolution.spec_dimensions().1)
        }),
{
    lemma_command_counts(s, input, output, enc, hw);
}

/// Every encoder that the resolver can pick is neutral, so the laws above
/// apply to the arguments that `build_ffmpeg_args_with_path` returns.
pub proof fn lemma_resolved_encoder_neutral(codec: VideoCodec, hw: HwAccelType, usable: Seq<Seq<char>>)
    ensures
        neutral(spec_resolve(codec, hw, usable).0),
        neutral(spec_encoder_name(codec, hw)),
{
    lemma_encoder_names_neutral();
    let fb = spec_fallbacks(codec);
    if let Some(e) = first_usable(fb, usable) {
        lemma_first_usable_member(fb, usable);
        let k = choose|k: int| 0 <= k < fb.len() && fb[k] == e;
        assert(k == 0 || k == 1);
    }
}

proof fn lemma_encoder_names_neutral()
    ensures
        neutral("libx264"@),
        neutral("libx265"@),
        neutral("libvpx-vp9"@),
        neutral("libsvtav1"@),
        neutral("libaom-av1"@),
        neutral("h264_nvenc"@),
        neutral("hevc_nvenc"@),
        neutral("av1_nvenc"@),
        neutral("h264_qsv"@),
        neutral("hevc_qsv"@),
        neutral("av1_qsv"@),
        neutral("vp9_qsv"@),
        neutral("h264_amf"@),
        neutral("hevc_amf"@),
        neutral("av1_amf"@),
{
    reveal_strlit("libx264");
    lemma_value("libx264"@);
    reveal_strlit("libx265");
    lemma_value("libx265"@);
    reveal_strlit("libvpx-vp9");
    lemma_value("libvpx-vp9"@);
    reveal_strlit("libsvtav1");
    lemma_value("libsvtav1"@);
    reveal_strlit("libaom-av1");
    lemma_value("libaom-av1"@);
    reveal_strlit("h264_nvenc");
    lemma_value("h264_nvenc"@);
    reveal_strlit("hevc_nvenc");
    lemma_value("hevc_nvenc"@);
    reveal_strlit("av1_nvenc");
    lemma_value("av1_nvenc"@);
    reveal_strlit("h264_qsv");
    lemma_value("h264_qsv"@);
    reveal_strlit("hevc_qsv");
    lemma_value("hevc_qsv"@);
    reveal_strlit("av1_qsv");
    lemma_value("av1_qsv"@);
    reveal_strlit("vp9_qsv");
    lemma_value("vp9_qsv"@);
    reveal_strlit("h264_amf");
    lemma_value("h264_amf"@);
    reveal_strlit("hevc_amf");
    lemma_value("hevc_amf"@);
    reveal_strlit("av1_amf");
    lemma_value("av1_amf"@);
}

// ---------------------------------------------------------------------------
// Reading settings back from an argument list
// ---------------------------------------------------------------------------

/// Flags that carry the quality value of a constant-quality encode.
pub open spec fn is_quality_flag(f: Seq<char>) -> bool {
    f == "-crf"@ || f == "-cq"@ || f == "-global_quality"@ || f == "-qp_i"@
}

/// The value of the first pair with flag `t`.
pub open spec fn flag_value(args: Seq<Seq<char>>, t: Seq<char>) -> Option<Seq<char>>
    decreases args.len(),
{
    if args.len() < 2 {
        None
    } else if args[0] == t {
        Some(args[1])
    } else {
        flag_value(args.subrange(2, args.len() as int), t)
    }
}

/// The value of the first pair with a quality flag.
pub open spec fn quality_value(args: Seq<Seq<char>>) -> Option<Seq<char>>
    decreases args.len(),
{
    if args.len() < 2 {
        None
    } else if is_quality_flag(args[0]) {
        Some(args[1])
    } else {
        quality_value(args.subrange(2, args.len() as int))
    }
}

/// The codec an encoder identifier encodes.
pub open spec fn codec_of_encoder(e: Seq<char>) -> Option<VideoCodec> {
    if e == "libx264"@ || e == "h264_nvenc"@ || e == "h264_qsv"@ || e == "h264_amf"@ {
        Some(VideoCodec::H264)
    } else if e == "libx265"@ || e == "hevc_nvenc"@ || e == "hevc_qsv"@ || e == "hevc_amf"@ {
        Some(VideoCodec::H265)
    } else if e == "libvpx-vp9"@ || e == "vp9_qsv"@ {
        Some(VideoCodec::Vp9)
    } else if e == "libsvtav1"@ || e == "libaom-av1"@ || e == "av1_nvenc"@ || e == "av1_qsv"@ || e
        == "av1_amf"@ {
        Some(VideoCodec::Av1)
    } else {
        None
    }
}

/// Index of the last dot of a path.
pub open spec fn last_dot(p: Seq<char>) -> Option<int>
    decreases p.len(),
{
    if p.len() == 0 {
        None
    } else if p.last() == '.' {
        Some(p.len() - 1)
    } else {
        last_dot(p.drop_last())
    }
}

/// The container a path's extension names.
pub open spec fn container_of_path(p: Seq<char>) -> Option<ContainerFormat> {
    match last_dot(p) {
        Some(i) => if p.skip(i + 1) == "mp4"@ {
            Some(ContainerFormat::Mp4)
        } else if p.skip(i + 1) == "mkv"@ {
            Some(ContainerFormat::Mkv)
        } else {
            None
        },
        None => None,
    }
}

/// A quality value read back from its text.
pub open spec fn quality_of(v: Seq<char>) -> Option<u8> {
    match spec_parse_u64(v) {
        Some(n) => if n <= 255 {
            Some(n as u8)
        } else {
            None
        },
        None => None,
    }
}

/// Codec, quality and container as an argument list shows them: the
/// encoder after the video-codec flag, the first quality value, and the
/// extension of the last argument (the output path).
pub open spec fn spec_inspect(args: Seq<Seq<char>>) -> (Option<VideoCodec>, Option<u8>, Option<ContainerFormat>) {
    (
        match flag_value(args, "-c:v"@) {
            Some(e) => codec_of_encoder(e),
            None => None,
        },
        match quality_value(args) {
            Some(v) => quality_of(v),
            None => None,
        },
        if args.len() > 0 {
            container_of_path(args.last())
        } else {
            None
        },
    )
}

proof fn lemma_value_add(a: Seq<Seq<char>>, b: Seq<Seq<char>>, t: Seq<char>)
    requires
        a.len() % 2 == 0,
    ensures
        flag_value(a + b, t) == (if flag_value(a, t) is Some {
            flag_value(a, t)
        } else {
            flag_value(b, t)
        }),
        quality_value(a + b) == (if quality_value(a) is Some {
            quality_value(a)
        } else {
            quality_value(b)
        }),
    decreases a.len(),
{
    if a.len() == 0 {
        assert(a + b =~= b);
    } else {
        let rest = a.subrange(2, a.len() as int);
        assert((a + b).subrange(2, (a + b).len() as int) =~= rest + b);
        lemma_value_add(rest, b, t);
    }
}

proof fn lemma_pair_value(f: Seq<char>, v: Seq<char>, t: Seq<char>)
    ensures
        flag_value(seq![f, v], t) == (if f == t {
            Some(v)
        } else {
            None
        }),
        quality_value(seq![f, v]) == (if is_quality_flag(f) {
            Some(v)
        } else {
            None
        }),
{
    let p = seq![f, v];
    assert(p.len() == 2 && p[0] == f && p[1] == v);
    assert(p.subrange(2, 2) =~= Seq::<Seq<char>>::empty());
    assert(flag_value(p.subrange(2, 2), t) is None);
    assert(quality_value(p.subrange(2, 2)) is None);
}

/// No pair of a block carries a quality flag.
pub open spec fn quality_free(a: Seq<Seq<char>>) -> bool {
    &&& a.len() % 2 == 0
    &&& quality_value(a) is None
}

proof fn lemma_non_quality()
    ensures
        !is_quality_flag("-hwaccel"@),
        !is_quality_flag("-i"@),
        !is_quality_flag("-c:v"@),
        !is_quality_flag("-vf"@),
        !is_quality_flag("-tune"@),
        !is_quality_flag("-rc"@),
        !is_quality_flag("-usage"@),
        !is_quality_flag("-quality"@),
        !is_quality_flag("-profile:v"@),
        !is_quality_flag("-b:v"@),
        is_quality_flag("-crf"@),
        is_quality_flag("-cq"@),
        is_quality_flag("-global_quality"@),
        is_quality_flag("-qp_i"@),
{
    reveal_strlit("-crf");
    reveal_strlit("-cq");
    reveal_strlit("-global_quality");
    reveal_strlit("-qp_i");
    reveal_strlit("-hwaccel");
    reveal_strlit("-i");
    reveal_strlit("-c:v");
    reveal_strlit("-vf");
    reveal_strlit("-tune");
    reveal_strlit("-rc");
    reveal_strlit("-usage");
    reveal_strlit("-quality");
    reveal_strlit("-profile:v");
    reveal_strlit("-b:v");
    assert("-c:v"@[1] != "-cq"@[1] || "-c:v"@[2] != "-cq"@[2]);
    assert("-c:v"@[2] != "-crf"@[2]);
    assert("-vf"@[1] != "-cq"@[1]);
    assert("-rc"@[1] != "-cq"@[1]);
    assert("-b:v"@[1] != "-crf"@[1]);
    assert("-tune"@[1] != "-crf"@[1]);
    assert("-i"@.len() != "-cq"@.len());
    assert("-usage"@[1] != "-crf"@[1]);
    assert("-quality"@[2] != "-qp_i"@[2]);
    assert("-quality"@.len() != "-crf"@.len());
    assert("-quality"@.len() != "-global_quality"@.len());
    assert("-profile:v"@[1] != "-crf"@[1]);
    assert("-hwaccel"@[1] != "-crf"@[1]);
}

proof fn lemma_nvenc_quality(s: TranscodeSettings)
    requires
        s.rate_control == RateControlMode::Crf,
    ensures
        quality_value(spec_nvenc_args(s)) == Some(decimal(s.crf as nat)),
{
    lemma_non_quality();
    let c = decimal(s.crf as nat);
    let a = seq!["-tune"@, s.nvenc_tune.spec_ffmpeg_value()];
    lemma_pair_value("-tune"@, s.nvenc_tune.spec_ffmpeg_value(), "-c:v"@);
    let b = seq!["-rc"@, "vbr"@];
    lemma_pair_value("-rc"@, "vbr"@, "-c:v"@);
    let q = seq!["-cq"@, c];
    lemma_pair_value("-cq"@, c, "-c:v"@);
    assert(spec_nvenc_rc(s) =~= b + q);
    let rest = spec_nvenc_args(s).subrange(6, spec_nvenc_args(s).len() as int);
    assert(spec_nvenc_args(s) =~= a + b + q + rest);
    lemma_value_add(a, b, "-c:v"@);
    lemma_value_add(a + b, q, "-c:v"@);
    lemma_value_add(a + b + q, rest, "-c:v"@);
}

proof fn lemma_qsv_quality(s: TranscodeSettings)
    requires
        s.rate_control == RateControlMode::Crf,
    ensures
        quality_value(spec_qsv_args(s)) == Some(decimal(s.crf as nat)),
{
    lemma_non_quality();
    let c = decimal(s.crf as nat);
    let q = seq!["-global_quality"@, c];
    lemma_pair_value("-global_quality"@, c, "-c:v"@);
    let rest = spec_qsv_args(s).subrange(2, spec_qsv_args(s).len() as int);
    assert(spec_qsv_args(s) =~= q + rest);
    lemma_value_add(q, rest, "-c:v"@);
}

proof fn lemma_amf_quality(s: TranscodeSettings)
    requires
        s.rate_control == RateControlMode::Crf,
    ensures
        quality_value(spec_amf_args(s)) == Some(decimal(s.crf as nat)),
{
    lemma_non_quality();
    let c = decimal(s.crf as nat);
    let u = seq!["-usage"@, s.amf_usage.spec_ffmpeg_value()];
    let ql = seq!["-quality"@, s.amf_quality.spec_ffmpeg_value()];
    let r = seq!["-rc"@, "cqp"@];
    let q = seq!["-qp_i"@, c];
    lemma_pair_value("-usage"@, s.amf_usage.spec_ffmpeg_value(), "-c:v"@);
    lemma_pair_value("-quality"@, s.amf_quality.spec_ffmpeg_value(), "-c:v"@);
    lemma_pair_value("-rc"@, "cqp"@, "-c:v"@);
    lemma_pair_value("-qp_i"@, c, "-c:v"@);
    let rest = spec_amf_args(s).subrange(8, spec_amf_args(s).len() as int);
    assert(spec_amf_args(s) =~= u + ql + r + q + rest);
    lemma_value_add(u, ql, "-c:v"@);
    lemma_value_add(u + ql, r, "-c:v"@);
    lemma_value_add(u + ql + r, q, "-c:v"@);
    lemma_value_add(u + ql + r + q, rest, "-c:v"@);
}

proof fn lemma_x264_quality(s: TranscodeSettings)
    requires
        s.rate_control == RateControlMode::Crf,
    ensures
        quality_value(spec_x264_args(s)) == Some(decimal(s.crf as nat)),
{
    lemma_non_quality();
    let c = decimal(s.crf as nat);
    let pr = seq!["-profile:v"@, s.x264_profile.spec_ffmpeg_value()];
    let q = seq!["-crf"@, c];
    lemma_pair_value("-profile:v"@, s.x264_profile.spec_ffmpeg_value(), "-c:v"@);
    lemma_pair_value("-crf"@, c, "-c:v"@);
    let rest = spec_x264_args(s).subrange(4, spec_x264_args(s).len() as int);
    assert(spec_x264_args(s) =~= pr + q + rest);
    lemma_value_add(pr, q, "-c:v"@);
    lemma_value_add(pr + q, rest, "-c:v"@);
}

proof fn lemma_x265_quality(s: TranscodeSettings)
    requires
        s.rate_control == RateControlMode::Crf,
    ensures
        quality_value(spec_x265_args(s)) == Some(decimal(s.crf as nat)),
{
    lemma_non_quality();
    let c = decimal(s.crf as nat);
    let q = seq!["-crf"@, c];
    lemma_pair_value("-crf"@, c, "-c:v"@);
    let rest = spec_x265_args(s).subrange(2, spec_x265_args(s).len() as int);
    assert(spec_x265_args(s) =~= q + rest);
    lemma_value_add(q, rest, "-c:v"@);
}

proof fn lemma_vp9_quality(s: TranscodeSettings)
    requires
        s.rate_control == RateControlMode::Crf,
    ensures
        quality_value(spec_vp9_args(s)) == Some(decimal(s.crf as nat)),
{
    lemma_non_quality();
    let c = decimal(s.crf as nat);
    let b = seq!["-b:v"@, "0"@];
    let q = seq!["-crf"@, c];
    lemma_pair_value("-b:v"@, "0"@, "-c:v"@);
    lemma_pair_value("-crf"@, c, "-c:v"@);
    let rest = spec_vp9_args(s).subrange(4, spec_vp9_args(s).len() as int);
    assert(spec_vp9_args(s) =~= b + q + rest);
    lemma_value_add(b, q, "-c:v"@);
    lemma_value_add(b + q, rest, "-c:v"@);
}

proof fn lemma_libaom_quality(s: TranscodeSettings)
    requires
        s.rate_control == RateControlMode::Crf,
    ensures
        quality_value(spec_libaom_args(s)) == Some(decimal(s.crf as nat)),
{
    lemma_non_quality();
    let c = decimal(s.crf as nat);
    let q = seq!["-crf"@, c];
    lemma_pair_value("-crf"@, c, "-c:v"@);
    let rest = spec_libaom_args(s).subrange(2, spec_libaom_args(s).len() as int);
    assert(spec_libaom_args(s) =~= q + rest);
    lemma_value_add(q, rest, "-c:v"@);
}

proof fn lemma_svtav1_quality(s: TranscodeSettings)
    requires
        s.rate_control == RateControlMode::Crf,
    ensures
        quality_value(spec_svtav1_args(s)) == Some(decimal(s.crf as nat)),
{
    lemma_non_quality();
    let c = decimal(s.crf as nat);
    let q = seq!["-crf"@, c];
    lemma_pair_value("-crf"@, c, "-c:v"@);
    let rest = spec_svtav1_args(s).subrange(2, spec_svtav1_args(s).len() as int);
    assert(spec_svtav1_args(s) =~= q + rest);
    lemma_value_add(q, rest, "-c:v"@);
}
/// Every family block of a constant-quality encode starts its quality
/// pairs with the settings' quality value.
proof fn lemma_family_quality(s: TranscodeSettings, enc: Seq<char>, hw: HwAccelType)
    requires
        s.rate_control == RateControlMode::Crf,
    ensures
        quality_value(spec_family_args(s, enc, hw)) == Some(decimal(s.crf as nat)),
{
    if enc == "h264_nvenc"@ || enc == "hevc_nvenc"@ || enc == "av1_nvenc"@ {
        lemma_nvenc_quality(s);
    } else if enc == "h264_qsv"@ || enc == "hevc_qsv"@ || enc == "av1_qsv"@ || enc == "vp9_qsv"@ {
        lemma_qsv_quality(s);
    } else if enc == "h264_amf"@ || enc == "hevc_amf"@ || enc == "av1_amf"@ {
        lemma_amf_quality(s);
    } else if enc == "libx264"@ {
        lemma_x264_quality(s);
    } else if enc == "libx265"@ {
        lemma_x265_quality(s);
    } else if enc == "libvpx-vp9"@ {
        lemma_vp9_quality(s);
    } else if enc == "libaom-av1"@ {
        lemma_libaom_quality(s);
    } else if enc == "libsvtav1"@ {
        lemma_svtav1_quality(s);
    } else {
        lemma_non_quality();
        let c = decimal(s.crf as nat);
        let q = if hw.is_hardware() {
            seq!["-cq"@, c]
        } else {
            seq!["-crf"@, c]
        };
        lemma_pair_value("-cq"@, c, "-c:v"@);
        lemma_pair_value("-crf"@, c, "-c:v"@);
        let rest = seq!["-preset"@, s.preset.spec_ffmpeg_name()];
        assert(spec_family_args(s, enc, hw) =~= q + rest);
        lemma_value_add(q, rest, "-c:v"@);
    }
}

proof fn lemma_digit_char(k: nat)
    requires
        k < 10,
    ensures
        is_digit(digit_char(k)),
        crate::text::digit_value(digit_char(k)) == k,
{
}

proof fn lemma_decimal_digits(n: nat)
    ensures
        decimal(n).len() > 0,
        all_digits(decimal(n)),
        digits_value(decimal(n)) == n,
    decreases n,
{
    let d = decimal(n);
    if n >= 10 {
        lemma_decimal_digits(n / 10);
        lemma_digit_char(n % 10);
        assert(d.drop_last() =~= decimal(n / 10));
        assert(d.last() == digit_char(n % 10));
        assert(digits_value(d) == digits_value(decimal(n / 10)) * 10 + crate::text::digit_value(digit_char(n % 10)));
        assert forall|i: int| 0 <= i < d.len() implies is_digit(#[trigger] d[i]) by {
            if i < d.len() - 1 {
                assert(d[i] == decimal(n / 10)[i]);
            }
        }
    } else {
        lemma_digit_char(n);
        assert(d.drop_last() =~= Seq::<char>::empty());
        assert(digits_value(d.drop_last()) == 0);
    }
}

proof fn lemma_extension(prefix: Seq<char>, c: ContainerFormat)
    ensures
        container_of_path(prefix + "."@ + c.spec_extension()) == Some(c),
{
    reveal_strlit(".");
    reveal_strlit("mp4");
    reveal_strlit("mkv");
    let e = c.spec_extension();
    let p = prefix + "."@ + e;
    assert(e.len() == 3);
    assert(e[0] != '.' && e[1] != '.' && e[2] != '.');
    let p1 = p.drop_last();
    let p2 = p1.drop_last();
    let p3 = p2.drop_last();
    assert(p.last() == e[2]);
    assert(p1.last() == e[1]);
    assert(p2.last() == e[0]);
    assert(p3 =~= prefix + "."@);
    assert(p3.last() == '.');
    assert(last_dot(p3) == Some(prefix.len() as int));
    assert(last_dot(p2) == last_dot(p3));
    assert(last_dot(p1) == last_dot(p2));
    assert(last_dot(p) == last_dot(p1));
    assert(p.skip(prefix.len() as int + 1) =~= e);
    assert("mp4"@[1] != "mkv"@[1]);
}

proof fn lemma_head_values(s: TranscodeSettings, input: Seq<char>, enc: Seq<char>, hw: HwAccelType)
    ensures
        ({
            let head = spec_hwaccel_args(hw) + seq!["-i"@, input] + seq!["-c:v"@, enc] + spec_scale_args(
                s.resolution,
            );
            &&& head.len() % 2 == 0
            &&& flag_value(head, "-c:v"@) == Some(enc)
            &&& quality_value(head) is None
        }),
{
    lemma_non_quality();
    lemma_selectors_differ();
    lemma_all_plain();
    let h = spec_hwaccel_args(hw);
    match hw {
        HwAccelType::Nvenc => lemma_pair_value("-hwaccel"@, "cuda"@, "-c:v"@),
        HwAccelType::Qsv => lemma_pair_value("-hwaccel"@, "qsv"@, "-c:v"@),
        HwAccelType::Amf => lemma_pair_value("-hwaccel"@, "d3d11va"@, "-c:v"@),
        _ => {
            assert(flag_value(h, "-c:v"@) is None);
            assert(quality_value(h) is None);
        },
    }
    let i = seq!["-i"@, input];
    lemma_pair_value("-i"@, input, "-c:v"@);
    let vh = seq!["-c:v"@, enc];
    lemma_pair_value("-c:v"@, enc, "-c:v"@);
    let sc = spec_scale_args(s.resolution);
    if !(s.resolution is Original) {
        lemma_pair_value("-vf"@, sc[1], "-c:v"@);
        assert(sc =~= seq!["-vf"@, sc[1]]);
    } else {
        assert(quality_value(sc) is None);
    }
    lemma_value_add(h, i, "-c:v"@);
    lemma_value_add(h + i, vh, "-c:v"@);
    lemma_value_add(h + i + vh, sc, "-c:v"@);
}

proof fn lemma_body_quality(s: TranscodeSettings, output: Seq<char>, enc: Seq<char>, hw: HwAccelType)
    requires
        s.rate_control == RateControlMode::Crf,
    ensures
        quality_value(
            spec_family_args(s, enc, hw) + opt_pair(s.gop_size > 0, "-g"@, decimal(s.gop_size as nat))
                + spec_audio_args(s) + seq![
                "-progress"@,
                "pipe:1"@,
                "-stats_period"@,
                "0.5"@,
                "-y"@,
                output,
            ],
        ) == Some(decimal(s.crf as nat)),
{
    let f = spec_family_args(s, enc, hw);
    lemma_family_quality(s, enc, hw);
    lemma_family_clean(s, enc, hw);
    let rest = opt_pair(s.gop_size > 0, "-g"@, decimal(s.gop_size as nat)) + spec_audio_args(s) + seq![
        "-progress"@,
        "pipe:1"@,
        "-stats_period"@,
        "0.5"@,
        "-y"@,
        output,
    ];
    lemma_value_add(f, rest, "-c:v"@);
    assert(f + opt_pair(s.gop_size > 0, "-g"@, decimal(s.gop_size as nat)) + spec_audio_args(s) + seq![
        "-progress"@,
        "pipe:1"@,
        "-stats_period"@,
        "0.5"@,
        "-y"@,
        output,
    ] =~= f + rest);
}

/// Compiling constant-quality settings and reading the argument list back
/// recovers the codec, the quality value and the container, for any
/// encoder of the settings' codec and any output path that ends with the
/// container's extension.
pub proof fn lemma_round_trip(
    s: TranscodeSettings,
    input: Seq<char>,
    output_stem: Seq<char>,
    enc: Seq<char>,
    hw: HwAccelType,
)
    requires
        s.rate_control == RateControlMode::Crf,
        codec_of_encoder(enc) == Some(s.video_codec),
    ensures
        spec_inspect(
            spec_command(s, input, output_stem + "."@ + s.container.spec_extension(), enc, hw),
        ) == (Some(s.video_codec), Some(s.crf), Some(s.container)),
{
    let output = output_stem + "."@ + s.container.spec_extension();
    let head = spec_hwaccel_args(hw) + seq!["-i"@, input] + seq!["-c:v"@, enc] + spec_scale_args(
        s.resolution,
    );
    let body = spec_family_args(s, enc, hw) + opt_pair(s.gop_size > 0, "-g"@, decimal(s.gop_size as nat))
        + spec_audio_args(s) + seq!["-progress"@, "pipe:1"@, "-stats_period"@, "0.5"@, "-y"@, output];
    lemma_head_values(s, input, enc, hw);
    lemma_body_quality(s, output, enc, hw);
    lemma_value_add(head, body, "-c:v"@);
    let cmd = spec_command(s, input, output, enc, hw);
    assert(cmd =~= head + body);
    lemma_decimal_digits(s.crf as nat);
    lemma_extension(output_stem, s.container);
    assert(cmd.last() == output);
}

proof fn lemma_encoder_names_codec()
    ensures
        codec_of_encoder("libx264"@) == Some(VideoCodec::H264),
        codec_of_encoder("h264_nvenc"@) == Some(VideoCodec::H264),
        codec_of_encoder("h264_qsv"@) == Some(VideoCodec::H264),
        codec_of_encoder("h264_amf"@) == Some(VideoCodec::H264),
        codec_of_encoder("libx265"@) == Some(VideoCodec::H265),
        codec_of_encoder("hevc_nvenc"@) == Some(VideoCodec::H265),
        codec_of_encoder("hevc_qsv"@) == Some(VideoCodec::H265),
        codec_of_encoder("hevc_amf"@) == Some(VideoCodec::H265),
        codec_of_encoder("libvpx-vp9"@) == Some(VideoCodec::Vp9),
        codec_of_encoder("vp9_qsv"@) == Some(VideoCodec::Vp9),
        codec_of_encoder("libsvtav1"@) == Some(VideoCodec::Av1),
        codec_of_encoder("libaom-av1"@) == Some(VideoCodec::Av1),
        codec_of_encoder("av1_nvenc"@) == Some(VideoCodec::Av1),
        codec_of_encoder("av1_qsv"@) == Some(VideoCodec::Av1),
        codec_of_encoder("av1_amf"@) == Some(VideoCodec::Av1),
{
    reveal_strlit("libx264");
    reveal_strlit("libx265");
    reveal_strlit("libvpx-vp9");
    reveal_strlit("libsvtav1");
    reveal_strlit("libaom-av1");
    reveal_strlit("h264_nvenc");
    reveal_strlit("hevc_nvenc");
    reveal_strlit("av1_nvenc");
    reveal_strlit("h264_qsv");
    reveal_strlit("hevc_qsv");
    reveal_strlit("av1_qsv");
    reveal_strlit("vp9_qsv");
    reveal_strlit("h264_amf");
    reveal_strlit("hevc_amf");
    reveal_strlit("av1_amf");
    assert("libx264"@[6] != "libx265"@[6]);
    assert("libx264"@[0] != "av1_qsv"@[0]);
    assert("libx264"@[0] != "vp9_qsv"@[0]);
    assert("libx264"@[0] != "av1_amf"@[0]);
    assert("libx265"@[0] != "av1_qsv"@[0]);
    assert("libx265"@[0] != "vp9_qsv"@[0]);
    assert("libx265"@[0] != "av1_amf"@[0]);
    assert("libvpx-vp9"@[3] != "libaom-av1"@[3]);
    assert("libvpx-vp9"@[0] != "h264_nvenc"@[0]);
    assert("libvpx-vp9"@[0] != "hevc_nvenc"@[0]);
    assert("libsvtav1"@[0] != "av1_nvenc"@[0]);
    assert("libaom-av1"@[0] != "h264_nvenc"@[0]);
    assert("libaom-av1"@[0] != "hevc_nvenc"@[0]);
    assert("h264_nvenc"@[1] != "hevc_nvenc"@[1]);
    assert("h264_qsv"@[1] != "hevc_qsv"@[1]);
    assert("h264_qsv"@[5] != "h264_amf"@[5]);
    assert("h264_qsv"@[1] != "hevc_amf"@[1]);
    assert("hevc_qsv"@[1] != "h264_amf"@[1]);
    assert("hevc_qsv"@[5] != "hevc_amf"@[5]);
    assert("av1_qsv"@[0] != "vp9_qsv"@[0]);
    assert("av1_qsv"@[4] != "av1_amf"@[4]);
    assert("vp9_qsv"@[0] != "av1_amf"@[0]);
    assert("h264_amf"@[1] != "hevc_amf"@[1]);
}

/// The encoder that resolution picks, and the preferred encoder used when
/// no availability facts are given, always encode the requested codec.
pub proof fn lemma_resolved_encoder_keeps_codec(codec: VideoCodec, hw: HwAccelType, usable: Seq<Seq<char>>)
    ensures
        codec_of_encoder(spec_resolve(codec, hw, usable).0) == Some(codec),
        codec_of_encoder(spec_encoder_name(codec, hw)) == Some(codec),
{
    lemma_encoder_names_codec();
    let fb = spec_fallbacks(codec);
    if let Some(e) = first_usable(fb, usable) {
        lemma_first_usable_member(fb, usable);
        let k = choose|k: int| 0 <= k < fb.len() && fb[k] == e;
        assert(k == 0 || k == 1);
    }
}

proof fn lemma_first_usable_member(cands: Seq<Seq<char>>, usable: Seq<Seq<char>>)
    ensures
        first_usable(cands, usable) matches Some(e) ==> cands.contains(e),
    decreases cands.len(),
{
    if cands.len() > 0 && !usable.contains(cands[0]) {
        lemma_first_usable_member(cands.drop_first(), usable);
        if let Some(e) = first_usable(cands, usable) {
            assert(cands.drop_first().contains(e));
            let k = choose|k: int| 0 <= k < cands.drop_first().len() && cands.drop_first()[k] == e;
            assert(cands[k + 1] == e);
        }
    }
}

} // verus!
