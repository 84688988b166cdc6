//! The transcode settings model and its option enums.
use vstd::prelude::*;

use crate::hwaccel::HwAccelType;
use crate::text::{decimal, decimal_string, join3, owned};

verus! {

/// Everything one transcode job is configured with.
///
/// Exactly one rate-control mode is active; the fields of the other modes
/// are carried along and ignored.
#[derive(Clone, Debug)]
pub struct TranscodeSettings {
    /// Output container.
    pub container: ContainerFormat,
    /// Video codec.
    pub video_codec: VideoCodec,
    /// Output resolution.
    pub resolution: VideoResolution,
    /// Quality value (CRF / CQ / QP, depending on the encoder).
    pub crf: u8,
    /// Speed/quality preset.
    pub preset: VideoPreset,
    /// Hardware-acceleration preference.
    pub hwaccel: HwAccelType,
    /// Audio codec.
    pub audio_codec: AudioCodec,
    /// Audio bitrate in kbit/s.
    pub audio_bitrate: u32,
    /// Output directory; `None` means next to the input.
    pub output_dir: Option<String>,
    /// Appended to the input's stem to name the output.
    pub output_suffix: String,
    /// Rate-control mode.
    pub rate_control: RateControlMode,
    /// Target bitrate in kbit/s (CBR and VBR).
    pub target_bitrate: u32,
    /// Peak bitrate in kbit/s (VBR).
    pub max_bitrate: u32,
    /// Number of B-frames.
    pub bframes: u8,
    /// Number of reference frames.
    pub ref_frames: u8,
    /// Keyframe interval; 0 leaves the encoder's default.
    pub gop_size: u32,
    /// Lookahead in frames.
    pub lookahead: u8,
    /// Adaptive-quantisation mode.
    pub aq_mode: AqMode,
    /// Adaptive-quantisation strength, in tenths.
    pub aq_strength: u8,
    /// NVENC tuning.
    pub nvenc_tune: NvencTune,
    /// NVENC multipass.
    pub nvenc_multipass: NvencMultipass,
    /// NVENC B-frame reference mode.
    pub nvenc_b_ref_mode: NvencBRefMode,
    /// QSV lookahead depth.
    pub qsv_la_depth: u8,
    /// QSV adaptive I-frames.
    pub qsv_adaptive_i: bool,
    /// QSV adaptive B-frames.
    pub qsv_adaptive_b: bool,
    /// AMF usage profile.
    pub amf_usage: AmfUsage,
    /// AMF quality preset.
    pub amf_quality: AmfQuality,
    /// x264/x265 tuning.
    pub x264_tune: X264Tune,
    /// x264 profile.
    pub x264_profile: X264Profile,
    /// VP9 tile columns.
    pub vp9_tile_columns: u8,
    /// VP9 tile rows.
    pub vp9_tile_rows: u8,
    /// VP9 frame-parallel decoding.
    pub vp9_frame_parallel: bool,
    /// VP9 alternate reference frames.
    pub vp9_auto_alt_ref: bool,
    /// VP9 lag in frames.
    pub vp9_lag_in_frames: u8,
    /// SVT-AV1 film-grain level.
    pub svtav1_film_grain: u8,
    /// SVT-AV1 film-grain denoising.
    pub svtav1_film_grain_denoise: bool,
    /// AV1 tile columns.
    pub av1_tile_columns: u8,
    /// AV1 tile rows.
    pub av1_tile_rows: u8,
}

impl Default for TranscodeSettings {
    fn default() -> (r: Self)
        ensures
            r.container == ContainerFormat::Mp4,
            r.video_codec == VideoCodec::H264,
            r.resolution == VideoResolution::Original,
            r.crf == 23,
            r.preset == VideoPreset::Medium,
            r.hwaccel == HwAccelType::Auto,
            r.audio_codec == AudioCodec::Aac,
            r.audio_bitrate == 192,
            r.output_dir.is_none(),
            r.output_suffix@ == "_transcoded"@,
            r.rate_control == RateControlMode::Crf,
            r.target_bitrate == 5000,
            r.max_bitrate == 10000,
            r.bframes == 3,
            r.ref_frames == 4,
            r.gop_size == 250,
            r.lookahead == 20,
            r.aq_mode == AqMode::Variance,
            r.aq_strength == 8,
            r.nvenc_tune == NvencTune::HighQuality,
            r.nvenc_multipass == NvencMultipass::Qres,
            r.nvenc_b_ref_mode == NvencBRefMode::Each,
            r.qsv_la_depth == 40,
            r.qsv_adaptive_i,
            r.qsv_adaptive_b,
            r.amf_usage == AmfUsage::Transcoding,
            r.amf_quality == AmfQuality::Balanced,
            r.x264_tune == X264Tune::Untuned,
            r.x264_profile == X264Profile::High,
            r.vp9_tile_columns == 2,
            r.vp9_tile_rows == 1,
            r.vp9_frame_parallel,
            r.vp9_auto_alt_ref,
            r.vp9_lag_in_frames == 25,
            r.svtav1_film_grain == 0,
            !r.svtav1_film_grain_denoise,
            r.av1_tile_columns == 2,
            r.av1_tile_rows == 2,
    {
        TranscodeSettings {
            container: ContainerFormat::Mp4,
            video_codec: VideoCodec::H264,
            resolution: VideoResolution::Original,
            crf: 23,
            preset: VideoPreset::Medium,
            hwaccel: HwAccelType::Auto,
            audio_codec: AudioCodec::Aac,
            audio_bitrate: 192,
            output_dir: None,
            output_suffix: owned("_transcoded"),
            rate_control: RateControlMode::Crf,
            target_bitrate: 5000,
            max_bitrate: 10000,
            bframes: 3,
            ref_frames: 4,
            gop_size: 250,
            lookahead: 20,
            aq_mode: AqMode::Variance,
            aq_strength: 8,
            nvenc_tune: NvencTune::HighQuality,
            nvenc_multipass: NvencMultipass::Qres,
            nvenc_b_ref_mode: NvencBRefMode::Each,
            qsv_la_depth: 40,
            qsv_adaptive_i: true,
            qsv_adaptive_b: true,
            amf_usage: AmfUsage::Transcoding,
            amf_quality: AmfQuality::Balanced,
            x264_tune: X264Tune::Untuned,
            x264_profile: X264Profile::High,
            vp9_tile_columns: 2,
            vp9_tile_rows: 1,
            vp9_frame_parallel: true,
            vp9_auto_alt_ref: true,
            vp9_lag_in_frames: 25,
            svtav1_film_grain: 0,
            svtav1_film_grain_denoise: false,
            av1_tile_columns: 2,
            av1_tile_rows: 2,
        }
    }
}

/// Rate-control strategy of the video encoder.
#[derive(Clone, Copy, Debug, PartialEq, Eq, Structural)]
pub enum RateControlMode {
    /// Constant quality.
    Crf,
    /// Constant bitrate.
    Cbr,
    /// Variable bitrate.
    Vbr,
    /// Constant quantisation parameter.
    Cqp,
}

impl RateControlMode {
    pub open spec fn spec_display_name(self) -> Seq<char> {
        match self {
            RateControlMode::Crf => "CRF (固定品質)"@,
            RateControlMode::Cbr => "CBR (固定レート)"@,
            RateControlMode::Vbr => "VBR (可変レート)"@,
            RateControlMode::Cqp => "CQP (固定QP)"@,
        }
    }

    /// Label shown to the user.
    pub fn display_name(&self) -> (r: &'static str)
        ensures
            r@ == self.spec_display_name(),
    {
        match self {
            RateControlMode::Crf => "CRF (固定品質)",
            RateControlMode::Cbr => "CBR (固定レート)",
            RateControlMode::Vbr => "VBR (可変レート)",
            RateControlMode::Cqp => "CQP (固定QP)",
        }
    }

    /// Every mode, in menu order.
    pub fn all() -> (r: &'static [RateControlMode])
        ensures
            r@ == seq![RateControlMode::Crf, RateControlMode::Cbr, RateControlMode::Vbr, RateControlMode::Cqp],
    {
        &[RateControlMode::Crf, RateControlMode::Cbr, RateControlMode::Vbr, RateControlMode::Cqp]
    }
}

impl Default for RateControlMode {
    fn default() -> (r: Self)
        ensures
            r == RateControlMode::Crf,
    {
        RateControlMode::Crf
    }
}

/// Adaptive-quantisation mode.
#[derive(Clone, Copy, Debug, PartialEq, Eq, Structural)]
pub enum AqMode {
    /// Disabled.
    Disabled,
    /// Variance-based.
    Variance,
    /// Automatic variance-based.
    AutoVariance,
    /// Automatic variance-based, biased towards dark areas.
    AutoVarianceBiased,
}

impl AqMode {
    pub open spec fn spec_display_name(self) -> Seq<char> {
        match self {
            AqMode::Disabled => "無効"@,
            AqMode::Variance => "分散ベース"@,
            AqMode::AutoVariance => "自動分散"@,
            AqMode::AutoVarianceBiased => "自動分散 (ダーク強調)"@,
        }
    }

    pub open spec fn spec_ffmpeg_value(self) -> u8 {
        match self {
            AqMode::Disabled => 0,
            AqMode::Variance => 1,
            AqMode::AutoVariance => 2,
            AqMode::AutoVarianceBiased => 3,
        }
    }

    /// Label shown to the user.
    pub fn display_name(&self) -> (r: &'static str)
        ensures
            r@ == self.spec_display_name(),
    {
        match self {
            AqMode::Disabled => "無効",
            AqMode::Variance => "分散ベース",
            AqMode::AutoVariance => "自動分散",
            AqMode::AutoVarianceBiased => "自動分散 (ダーク強調)",
        }
    }

    /// Value of the engine option.
    pub fn ffmpeg_value(&self) -> (r: u8)
        ensures
            r == self.spec_ffmpeg_value(),
    {
        match self {
            AqMode::Disabled => 0,
            AqMode::Variance => 1,
            AqMode::AutoVariance => 2,
            AqMode::AutoVarianceBiased => 3,
        }
    }

    /// Every variant, in menu order.
    pub fn all() -> (r: &'static [AqMode])
        ensures
            r@ == seq![AqMode::Disabled, AqMode::Variance, AqMode::AutoVariance, AqMode::AutoVarianceBiased],
    {
        &[AqMode::Disabled, AqMode::Variance, AqMode::AutoVariance, AqMode::AutoVarianceBiased]
    }
}

impl Default for AqMode {
    fn default() -> (r: Self)
        ensures
            r == AqMode::Variance,
    {
        AqMode::Variance
    }
}

/// NVENC tuning.
#[derive(Clone, Copy, Debug, PartialEq, Eq, Structural)]
pub enum NvencTune {
    /// High quality.
    HighQuality,
    /// Low latency.
    LowLatency,
    /// Ultra-low latency.
    UltraLowLatency,
    /// Lossless.
    Lossless,
}

impl NvencTune {
    pub open spec fn spec_display_name(self) -> Seq<char> {
        match self {
            NvencTune::HighQuality => "高品質 (hq)"@,
            NvencTune::LowLatency => "低遅延 (ll)"@,
            NvencTune::UltraLowLatency => "超低遅延 (ull)"@,
            NvencTune::Lossless => "ロスレス (lossless)"@,
        }
    }

    pub open spec fn spec_ffmpeg_value(self) -> Seq<char> {
        match self {
            NvencTune::HighQuality => "hq"@,
            NvencTune::LowLatency => "ll"@,
            NvencTune::UltraLowLatency => "ull"@,
            NvencTune::Lossless => "lossless"@,
        }
    }

    /// Label shown to the user.
    pub fn display_name(&self) -> (r: &'static str)
        ensures
            r@ == self.spec_display_name(),
    {
        match self {
            NvencTune::HighQuality => "高品質 (hq)",
            NvencTune::LowLatency => "低遅延 (ll)",
            NvencTune::UltraLowLatency => "超低遅延 (ull)",
            NvencTune::Lossless => "ロスレス (lossless)",
        }
    }

    /// Value of the engine option.
    pub fn ffmpeg_value(&self) -> (r: &'static str)
        ensures
            r@ == self.spec_ffmpeg_value(),
    {
        match self {
            NvencTune::HighQuality => "hq",
            NvencTune::LowLatency => "ll",
            NvencTune::UltraLowLatency => "ull",
            NvencTune::Lossless => "lossless",
        }
    }

    /// Every variant, in menu order.
    pub fn all() -> (r: &'static [NvencTune])
        ensures
            r@ == seq![NvencTune::HighQuality, NvencTune::LowLatency, NvencTune::UltraLowLatency, NvencTune::Lossless],
    {
        &[NvencTune::HighQuality, NvencTune::LowLatency, NvencTune::UltraLowLatency, NvencTune::Lossless]
    }
}

impl Default for NvencTune {
    fn default() -> (r: Self)
        ensures
            r == NvencTune::HighQuality,
    {
        NvencTune::HighQuality
    }
}

/// NVENC multipass mode.
#[derive(Clone, Copy, Debug, PartialEq, Eq, Structural)]
pub enum NvencMultipass {
    /// Single pass.
    Disabled,
    /// First pass at quarter resolution.
    Qres,
    /// First pass at full resolution.
    Fullres,
}

impl NvencMultipass {
    pub open spec fn spec_display_name(self) -> Seq<char> {
        match self {
            NvencMultipass::Disabled => "無効"@,
            NvencMultipass::Qres => "1/4解像度"@,
            NvencMultipass::Fullres => "フル解像度"@,
        }
    }

    pub open spec fn spec_ffmpeg_value(self) -> Seq<char> {
        match self {
            NvencMultipass::Disabled => "disabled"@,
            NvencMultipass::Qres => "qres"@,
            NvencMultipass::Fullres => "fullres"@,
        }
    }

    /// Label shown to the user.
    pub fn display_name(&self) -> (r: &'static str)
        ensures
            r@ == self.spec_display_name(),
    {
        match self {
            NvencMultipass::Disabled => "無効",
            NvencMultipass::Qres => "1/4解像度",
            NvencMultipass::Fullres => "フル解像度",
        }
    }

    /// Value of the engine option.
    pub fn ffmpeg_value(&self) -> (r: &'static str)
        ensures
            r@ == self.spec_ffmpeg_value(),
    {
        match self {
            NvencMultipass::Disabled => "disabled",
            NvencMultipass::Qres => "qres",
            NvencMultipass::Fullres => "fullres",
        }
    }

    /// Every variant, in menu order.
    pub fn all() -> (r: &'static [NvencMultipass])
        ensures
            r@ == seq![NvencMultipass::Disabled, NvencMultipass::Qres, NvencMultipass::Fullres],
    {
        &[NvencMultipass::Disabled, NvencMultipass::Qres, NvencMultipass::Fullres]
    }
}

impl Default for NvencMultipass {
    fn default() -> (r: Self)
        ensures
            r == NvencMultipass::Qres,
    {
        NvencMultipass::Qres
    }
}

/// NVENC B-frames as references.
#[derive(Clone, Copy, Debug, PartialEq, Eq, Structural)]
pub enum NvencBRefMode {
    /// No B-frame references.
    Disabled,
    /// Every B-frame.
    Each,
    /// The middle B-frame only.
    Middle,
}

impl NvencBRefMode {
    pub open spec fn spec_display_name(self) -> Seq<char> {
        match self {
            NvencBRefMode::Disabled => "無効"@,
            NvencBRefMode::Each => "各Bフレーム"@,
            NvencBRefMode::Middle => "中間のみ"@,
        }
    }

    pub open spec fn spec_ffmpeg_value(self) -> Seq<char> {
        match self {
            NvencBRefMode::Disabled => "disabled"@,
            NvencBRefMode::Each => "each"@,
            NvencBRefMode::Middle => "middle"@,
        }
    }

    /// Label shown to the user.
    pub fn display_name(&self) -> (r: &'static str)
        ensures
            r@ == self.spec_display_name(),
    {
        match self {
            NvencBRefMode::Disabled => "無効",
            NvencBRefMode::Each => "各Bフレーム",
            NvencBRefMode::Middle => "中間のみ",
        }
    }

    /// Value of the engine option.
    pub fn ffmpeg_value(&self) -> (r: &'static str)
        ensures
            r@ == self.spec_ffmpeg_value(),
    {
        match self {
            NvencBRefMode::Disabled => "disabled",
            NvencBRefMode::Each => "each",
            NvencBRefMode::Middle => "middle",
        }
    }

    /// Every variant, in menu order.
    pub fn all() -> (r: &'static [NvencBRefMode])
        ensures
            r@ == seq![NvencBRefMode::Disabled, NvencBRefMode::Each, NvencBRefMode::Middle],
    {
        &[NvencBRefMode::Disabled, NvencBRefMode::Each, NvencBRefMode::Middle]
    }
}

impl Default for NvencBRefMode {
    fn default() -> (r: Self)
        ensures
            r == NvencBRefMode::Each,
    {
        NvencBRefMode::Each
    }
}

/// AMF usage profile.
#[derive(Clone, Copy, Debug, PartialEq, Eq, Structural)]
pub enum AmfUsage {
    /// Transcoding.
    Transcoding,
    /// Ultra-low latency.
    UltraLowLatency,
    /// Low latency.
    LowLatency,
    /// Webcam.
    Webcam,
}

impl AmfUsage {
    pub open spec fn spec_display_name(self) -> Seq<char> {
        match self {
            AmfUsage::Transcoding => "トランスコーディング"@,
            AmfUsage::UltraLowLatency => "超低遅延"@,
            AmfUsage::LowLatency => "低遅延"@,
            AmfUsage::Webcam => "ウェブカメラ"@,
        }
    }

    pub open spec fn spec_ffmpeg_value(self) -> Seq<char> {
        match self {
            AmfUsage::Transcoding => "transcoding"@,
            AmfUsage::UltraLowLatency => "ultralowlatency"@,
            AmfUsage::LowLatency => "lowlatency"@,
            AmfUsage::Webcam => "webcam"@,
        }
    }

    /// Label shown to the user.
    pub fn display_name(&self) -> (r: &'static str)
        ensures
            r@ == self.spec_display_name(),
    {
        match self {
            AmfUsage::Transcoding => "トランスコーディング",
            AmfUsage::UltraLowLatency => "超低遅延",
            AmfUsage::LowLatency => "低遅延",
            AmfUsage::Webcam => "ウェブカメラ",
        }
    }

    /// Value of the engine option.
    pub fn ffmpeg_value(&self) -> (r: &'static str)
        ensures
            r@ == self.spec_ffmpeg_value(),
    {
        match self {
            AmfUsage::Transcoding => "transcoding",
            AmfUsage::UltraLowLatency => "ultralowlatency",
            AmfUsage::LowLatency => "lowlatency",
            AmfUsage::Webcam => "webcam",
        }
    }

    /// Every variant, in menu order.
    pub fn all() -> (r: &'static [AmfUsage])
        ensures
            r@ == seq![AmfUsage::Transcoding, AmfUsage::UltraLowLatency, AmfUsage::LowLatency, AmfUsage::Webcam],
    {
        &[AmfUsage::Transcoding, AmfUsage::UltraLowLatency, AmfUsage::LowLatency, AmfUsage::Webcam]
    }
}

impl Default for AmfUsage {
    fn default() -> (r: Self)
        ensures
            r == AmfUsage::Transcoding,
    {
        AmfUsage::Transcoding
    }
}

/// AMF quality preset.
#[derive(Clone, Copy, Debug, PartialEq, Eq, Structural)]
pub enum AmfQuality {
    /// Favour speed.
    Speed,
    /// Balanced.
    Balanced,
    /// Favour quality.
    Quality,
}

impl AmfQuality {
    pub open spec fn spec_display_name(self) -> Seq<char> {
        match self {
            AmfQuality::Speed => "速度重視"@,
            AmfQuality::Balanced => "バランス"@,
            AmfQuality::Quality => "品質重視"@,
        }
    }

    pub open spec fn spec_ffmpeg_value(self) -> Seq<char> {
        match self {
            AmfQuality::Speed => "speed"@,
            AmfQuality::Balanced => "balanced"@,
            AmfQuality::Quality => "quality"@,
        }
    }

    /// Label shown to the user.
    pub fn display_name(&self) -> (r: &'static str)
        ensures
            r@ == self.spec_display_name(),
    {
        match self {
            AmfQuality::Speed => "速度重視",
            AmfQuality::Balanced => "バランス",
            AmfQuality::Quality => "品質重視",
        }
    }

    /// Value of the engine option.
    pub fn ffmpeg_value(&self) -> (r: &'static str)
        ensures
            r@ == self.spec_ffmpeg_value(),
    {
        match self {
            AmfQuality::Speed => "speed",
            AmfQuality::Balanced => "balanced",
            AmfQuality::Quality => "quality",
        }
    }

    /// Every variant, in menu order.
    pub fn all() -> (r: &'static [AmfQuality])
        ensures
            r@ == seq![AmfQuality::Speed, AmfQuality::Balanced, AmfQuality::Quality],
    {
        &[AmfQuality::Speed, AmfQuality::Balanced, AmfQuality::Quality]
    }
}

impl Default for AmfQuality {
    fn default() -> (r: Self)
        ensures
            r == AmfQuality::Balanced,
    {
        AmfQuality::Balanced
    }
}

/// x264/x265 tuning.
#[derive(Clone, Copy, Debug, PartialEq, Eq, Structural)]
pub enum X264Tune {
    /// No tuning.
    Untuned,
    /// Film.
    Film,
    /// Animation.
    Animation,
    /// Keep grain.
    Grain,
    /// Still images.
    StillImage,
    /// Optimise PSNR.
    Psnr,
    /// Optimise SSIM.
    Ssim,
    /// Fast decoding.
    FastDecode,
    /// Zero latency.
    ZeroLatency,
}

impl X264Tune {
    pub open spec fn spec_display_name(self) -> Seq<char> {
        match self {
            X264Tune::Untuned => "なし"@,
            X264Tune::Film => "映画"@,
            X264Tune::Animation => "アニメーション"@,
            X264Tune::Grain => "グレイン (ノイズ保持)"@,
            X264Tune::StillImage => "静止画"@,
            X264Tune::Psnr => "PSNR最適化"@,
            X264Tune::Ssim => "SSIM最適化"@,
            X264Tune::FastDecode => "高速デコード"@,
            X264Tune::ZeroLatency => "ゼロレイテンシー"@,
        }
    }

    pub open spec fn spec_ffmpeg_value(self) -> Option<Seq<char>> {
        match self {
            X264Tune::Untuned => None,
            X264Tune::Film => Some("film"@),
            X264Tune::Animation => Some("animation"@),
            X264Tune::Grain => Some("grain"@),
            X264Tune::StillImage => Some("stillimage"@),
            X264Tune::Psnr => Some("psnr"@),
            X264Tune::Ssim => Some("ssim"@),
            X264Tune::FastDecode => Some("fastdecode"@),
            X264Tune::ZeroLatency => Some("zerolatency"@),
        }
    }

    /// Label shown to the user.
    pub fn display_name(&self) -> (r: &'static str)
        ensures
            r@ == self.spec_display_name(),
    {
        match self {
            X264Tune::Untuned => "なし",
            X264Tune::Film => "映画",
            X264Tune::Animation => "アニメーション",
            X264Tune::Grain => "グレイン (ノイズ保持)",
            X264Tune::StillImage => "静止画",
            X264Tune::Psnr => "PSNR最適化",
            X264Tune::Ssim => "SSIM最適化",
            X264Tune::FastDecode => "高速デコード",
            X264Tune::ZeroLatency => "ゼロレイテンシー",
        }
    }

    /// Value of the engine option; `None` when no option is passed.
    pub fn ffmpeg_value(&self) -> (r: Option<&'static str>)
        ensures
            r.is_some() == self.spec_ffmpeg_value().is_some(),
            r.is_some() ==> r.unwrap()@ == self.spec_ffmpeg_value().unwrap(),
    {
        match self {
            X264Tune::Untuned => None,
            X264Tune::Film => Some("film"),
            X264Tune::Animation => Some("animation"),
            X264Tune::Grain => Some("grain"),
            X264Tune::StillImage => Some("stillimage"),
            X264Tune::Psnr => Some("psnr"),
            X264Tune::Ssim => Some("ssim"),
            X264Tune::FastDecode => Some("fastdecode"),
            X264Tune::ZeroLatency => Some("zerolatency"),
        }
    }

    /// Every variant, in menu order.
    pub fn all() -> (r: &'static [X264Tune])
        ensures
            r@ == seq![X264Tune::Untuned, X264Tune::Film, X264Tune::Animation, X264Tune::Grain, X264Tune::StillImage, X264Tune::Psnr, X264Tune::Ssim, X264Tune::FastDecode, X264Tune::ZeroLatency],
    {
        &[X264Tune::Untuned, X264Tune::Film, X264Tune::Animation, X264Tune::Grain, X264Tune::StillImage, X264Tune::Psnr, X264Tune::Ssim, X264Tune::FastDecode, X264Tune::ZeroLatency]
    }
}

impl Default for X264Tune {
    fn default() -> (r: Self)
        ensures
            r == X264Tune::Untuned,
    {
        X264Tune::Untuned
    }
}

/// x264 profile.
#[derive(Clone, Copy, Debug, PartialEq, Eq, Structural)]
pub enum X264Profile {
    /// Baseline.
    Baseline,
    /// Main.
    Main,
    /// High.
    High,
    /// High 10.
    High10,
    /// High 4:4:4 Predictive.
    High444,
}

impl X264Profile {
    pub open spec fn spec_display_name(self) -> Seq<char> {
        match self {
            X264Profile::Baseline => "Baseline (互換性重視)"@,
            X264Profile::Main => "Main (標準)"@,
            X264Profile::High => "High (高品質)"@,
            X264Profile::High10 => "High 10 (10ビット)"@,
            X264Profile::High444 => "High 4:4:4"@,
        }
    }

    pub open spec fn spec_ffmpeg_value(self) -> Seq<char> {
        match self {
            X264Profile::Baseline => "baseline"@,
            X264Profile::Main => "main"@,
            X264Profile::High => "high"@,
            X264Profile::High10 => "high10"@,
            X264Profile::High444 => "high444"@,
        }
    }

    /// Label shown to the user.
    pub fn display_name(&self) -> (r: &'static str)
        ensures
            r@ == self.spec_display_name(),
    {
        match self {
            X264Profile::Baseline => "Baseline (互換性重視)",
            X264Profile::Main => "Main (標準)",
            X264Profile::High => "High (高品質)",
            X264Profile::High10 => "High 10 (10ビット)",
            X264Profile::High444 => "High 4:4:4",
        }
    }

    /// Value of the engine option.
    pub fn ffmpeg_value(&self) -> (r: &'static str)
        ensures
            r@ == self.spec_ffmpeg_value(),
    {
        match self {
            X264Profile::Baseline => "baseline",
            X264Profile::Main => "main",
            X264Profile::High => "high",
            X264Profile::High10 => "high10",
            X264Profile::High444 => "high444",
        }
    }

    /// Every variant, in menu order.
    pub fn all() -> (r: &'static [X264Profile])
        ensures
            r@ == seq![X264Profile::Baseline, X264Profile::Main, X264Profile::High, X264Profile::High10, X264Profile::High444],
    {
        &[X264Profile::Baseline, X264Profile::Main, X264Profile::High, X264Profile::High10, X264Profile::High444]
    }
}

impl Default for X264Profile {
    fn default() -> (r: Self)
        ensures
            r == X264Profile::High,
    {
        X264Profile::High
    }
}
/// Output container.
#[derive(Clone, Copy, Debug, PartialEq, Eq, Structural)]
pub enum ContainerFormat {
    Mp4,
    Mkv,
}

impl ContainerFormat {
    pub open spec fn spec_extension(self) -> Seq<char> {
        match self {
            ContainerFormat::Mp4 => "mp4"@,
            ContainerFormat::Mkv => "mkv"@,
        }
    }

    /// File extension, without the dot.
    pub fn extension(&self) -> (r: &'static str)
        ensures
            r@ == self.spec_extension(),
    {
        match self {
            ContainerFormat::Mp4 => "mp4",
            ContainerFormat::Mkv => "mkv",
        }
    }

    /// Label shown to the user.
    pub fn display_name(&self) -> (r: &'static str)
        ensures
            r@ == (match self {
                ContainerFormat::Mp4 => "MP4"@,
                ContainerFormat::Mkv => "MKV"@,
            }),
    {
        match self {
            ContainerFormat::Mp4 => "MP4",
            ContainerFormat::Mkv => "MKV",
        }
    }

    /// Every variant, in menu order.
    pub fn all() -> (r: &'static [ContainerFormat])
        ensures
            r@ == seq![ContainerFormat::Mp4, ContainerFormat::Mkv],
    {
        &[ContainerFormat::Mp4, ContainerFormat::Mkv]
    }
}

/// Video codec family.
#[derive(Clone, Copy, Debug, PartialEq, Eq, Structural)]
pub enum VideoCodec {
    H264,
    H265,
    Vp9,
    Av1,
}

/// The encoder that a codec maps to under an acceleration category. VP9 has
/// no NVENC or AMF path, and `Auto` and `Software` map to the software encoder.
pub open spec fn spec_encoder_name(codec: VideoCodec, hw: HwAccelType) -> Seq<char> {
    match (codec, hw) {
        (VideoCodec::H264, HwAccelType::Nvenc) => "h264_nvenc"@,
        (VideoCodec::H265, HwAccelType::Nvenc) => "hevc_nvenc"@,
        (VideoCodec::Av1, HwAccelType::Nvenc) => "av1_nvenc"@,
        (VideoCodec::Vp9, HwAccelType::Nvenc) => "libvpx-vp9"@,
        (VideoCodec::H264, HwAccelType::Qsv) => "h264_qsv"@,
        (VideoCodec::H265, HwAccelType::Qsv) => "hevc_qsv"@,
        (VideoCodec::Av1, HwAccelType::Qsv) => "av1_qsv"@,
        (VideoCodec::Vp9, HwAccelType::Qsv) => "vp9_qsv"@,
        (VideoCodec::H264, HwAccelType::Amf) => "h264_amf"@,
        (VideoCodec::H265, HwAccelType::Amf) => "hevc_amf"@,
        (VideoCodec::Av1, HwAccelType::Amf) => "av1_amf"@,
        (VideoCodec::Vp9, HwAccelType::Amf) => "libvpx-vp9"@,
        (VideoCodec::H264, _) => "libx264"@,
        (VideoCodec::H265, _) => "libx265"@,
        (VideoCodec::Vp9, _) => "libvpx-vp9"@,
        (VideoCodec::Av1, _) => "libsvtav1"@,
    }
}

impl VideoCodec {
    /// Label shown to the user.
    pub fn display_name(&self) -> (r: &'static str)
        ensures
            r@ == (match self {
                VideoCodec::H264 => "H.264 (AVC)"@,
                VideoCodec::H265 => "H.265 (HEVC)"@,
                VideoCodec::Vp9 => "VP9"@,
                VideoCodec::Av1 => "AV1"@,
            }),
    {
        match self {
            VideoCodec::H264 => "H.264 (AVC)",
            VideoCodec::H265 => "H.265 (HEVC)",
            VideoCodec::Vp9 => "VP9",
            VideoCodec::Av1 => "AV1",
        }
    }

    /// Engine encoder identifier for this codec under `hwaccel`.
    pub fn encoder_name(&self, hwaccel: &HwAccelType) -> (r: &'static str)
        ensures
            r@ == spec_encoder_name(*self, *hwaccel),
    {
        match (self, hwaccel) {
            (VideoCodec::H264, HwAccelType::Nvenc) => "h264_nvenc",
            (VideoCodec::H265, HwAccelType::Nvenc) => "hevc_nvenc",
            (VideoCodec::Av1, HwAccelType::Nvenc) => "av1_nvenc",
            (VideoCodec::Vp9, HwAccelType::Nvenc) => "libvpx-vp9",
            (VideoCodec::H264, HwAccelType::Qsv) => "h264_qsv",
            (VideoCodec::H265, HwAccelType::Qsv) => "hevc_qsv",
            (VideoCodec::Av1, HwAccelType::Qsv) => "av1_qsv",
            (VideoCodec::Vp9, HwAccelType::Qsv) => "vp9_qsv",
            (VideoCodec::H264, HwAccelType::Amf) => "h264_amf",
            (VideoCodec::H265, HwAccelType::Amf) => "hevc_amf",
            (VideoCodec::Av1, HwAccelType::Amf) => "av1_amf",
            (VideoCodec::Vp9, HwAccelType::Amf) => "libvpx-vp9",
            (VideoCodec::H264, _) => "libx264",
            (VideoCodec::H265, _) => "libx265",
            (VideoCodec::Vp9, _) => "libvpx-vp9",
            (VideoCodec::Av1, _) => "libsvtav1",
        }
    }

    /// Every variant, in menu order.
    pub fn all() -> (r: &'static [VideoCodec])
        ensures
            r@ == seq![VideoCodec::H264, VideoCodec::H265, VideoCodec::Vp9, VideoCodec::Av1],
    {
        &[VideoCodec::H264, VideoCodec::H265, VideoCodec::Vp9, VideoCodec::Av1]
    }
}

/// Output resolution.
#[derive(Clone, Copy, Debug, PartialEq, Eq, Structural)]
pub enum VideoResolution {
    /// Keep the source resolution.
    Original,
    /// 3840x2160.
    Uhd4K,
    /// 1920x1080.
    Fhd1080,
    /// 1280x720.
    Hd720,
    /// 854x480.
    Sd480,
    /// Width and height chosen by the user.
    Custom(u32, u32),
}

impl VideoResolution {
    pub open spec fn spec_dimensions(self) -> (u32, u32) {
        match self {
            VideoResolution::Original => (0, 0),
            VideoResolution::Uhd4K => (3840, 2160),
            VideoResolution::Fhd1080 => (1920, 1080),
            VideoResolution::Hd720 => (1280, 720),
            VideoResolution::Sd480 => (854, 480),
            VideoResolution::Custom(w, h) => (w, h),
        }
    }

    /// Label shown to the user.
    pub fn display_name(&self) -> (r: String)
        ensures
            r@ == (match *self {
                VideoResolution::Original => "元の解像度"@,
                VideoResolution::Uhd4K => "4K (2160p)"@,
                VideoResolution::Fhd1080 => "1080p"@,
                VideoResolution::Hd720 => "720p"@,
                VideoResolution::Sd480 => "480p"@,
                VideoResolution::Custom(w, h) => decimal(w as nat) + "x"@ + decimal(h as nat),
            }),
    {
        match self {
            VideoResolution::Original => owned("元の解像度"),
            VideoResolution::Uhd4K => owned("4K (2160p)"),
            VideoResolution::Fhd1080 => owned("1080p"),
            VideoResolution::Hd720 => owned("720p"),
            VideoResolution::Sd480 => owned("480p"),
            VideoResolution::Custom(w, h) => {
                let ws = decimal_string(*w as u64);
                let hs = decimal_string(*h as u64);
                join3(ws.as_str(), "x", hs.as_str())
            },
        }
    }

    /// Width and height; `(0, 0)` for the source resolution.
    pub fn dimensions(&self) -> (r: (u32, u32))
        ensures
            r == self.spec_dimensions(),
    {
        match self {
            VideoResolution::Original => (0, 0),
            VideoResolution::Uhd4K => (3840, 2160),
            VideoResolution::Fhd1080 => (1920, 1080),
            VideoResolution::Hd720 => (1280, 720),
            VideoResolution::Sd480 => (854, 480),
            VideoResolution::Custom(w, h) => (*w, *h),
        }
    }

    /// The fixed choices, in menu order (custom sizes are not listed).
    pub fn all() -> (r: &'static [VideoResolution])
        ensures
            r@ == seq![
                VideoResolution::Original,
                VideoResolution::Uhd4K,
                VideoResolution::Fhd1080,
                VideoResolution::Hd720,
                VideoResolution::Sd480,
            ],
    {
        &[
            VideoResolution::Original,
            VideoResolution::Uhd4K,
            VideoResolution::Fhd1080,
            VideoResolution::Hd720,
            VideoResolution::Sd480,
        ]
    }
}

/// Five-level speed/quality preset.
#[derive(Clone, Copy, Debug, PartialEq, Eq, Structural)]
pub enum VideoPreset {
    Ultrafast,
    Fast,
    Medium,
    Slow,
    Veryslow,
}

impl VideoPreset {
    pub open spec fn spec_ffmpeg_name(self) -> Seq<char> {
        match self {
            VideoPreset::Ultrafast => "ultrafast"@,
            VideoPreset::Fast => "fast"@,
            VideoPreset::Medium => "medium"@,
            VideoPreset::Slow => "slow"@,
            VideoPreset::Veryslow => "veryslow"@,
        }
    }

    /// Label shown to the user.
    pub fn display_name(&self) -> (r: &'static str)
        ensures
            r@ == (match self {
                VideoPreset::Ultrafast => "最速 (ultrafast)"@,
                VideoPreset::Fast => "高速 (fast)"@,
                VideoPreset::Medium => "標準 (medium)"@,
                VideoPreset::Slow => "高品質 (slow)"@,
                VideoPreset::Veryslow => "最高品質 (veryslow)"@,
            }),
    {
        match self {
            VideoPreset::Ultrafast => "最速 (ultrafast)",
            VideoPreset::Fast => "高速 (fast)",
            VideoPreset::Medium => "標準 (medium)",
            VideoPreset::Slow => "高品質 (slow)",
            VideoPreset::Veryslow => "最高品質 (veryslow)",
        }
    }

    /// Preset name of the x264/x265 family.
    pub fn ffmpeg_name(&self) -> (r: &'static str)
        ensures
            r@ == self.spec_ffmpeg_name(),
    {
        match self {
            VideoPreset::Ultrafast => "ultrafast",
            VideoPreset::Fast => "fast",
            VideoPreset::Medium => "medium",
            VideoPreset::Slow => "slow",
            VideoPreset::Veryslow => "veryslow",
        }
    }

    /// Every variant, fastest first.
    pub fn all() -> (r: &'static [VideoPreset])
        ensures
            r@ == seq![
                VideoPreset::Ultrafast,
                VideoPreset::Fast,
                VideoPreset::Medium,
                VideoPreset::Slow,
                VideoPreset::Veryslow,
            ],
    {
        &[
            VideoPreset::Ultrafast,
            VideoPreset::Fast,
            VideoPreset::Medium,
            VideoPreset::Slow,
            VideoPreset::Veryslow,
        ]
    }
}

/// Audio codec.
#[derive(Clone, Copy, Debug, PartialEq, Eq, Structural)]
pub enum AudioCodec {
    Aac,
    Mp3,
    /// Lossless.
    Flac,
    /// Pass the source audio through unchanged.
    Copy,
}

impl AudioCodec {
    /// Label shown to the user.
    pub fn display_name(&self) -> (r: &'static str)
        ensures
            r@ == (match self {
                AudioCodec::Aac => "AAC"@,
                AudioCodec::Mp3 => "MP3"@,
                AudioCodec::Flac => "FLAC (ロスレス)"@,
                AudioCodec::Copy => "コピー (無変換)"@,
            }),
    {
        match self {
            AudioCodec::Aac => "AAC",
            AudioCodec::Mp3 => "MP3",
            AudioCodec::Flac => "FLAC (ロスレス)",
            AudioCodec::Copy => "コピー (無変換)",
        }
    }

    /// Every variant, in menu order.
    pub fn all() -> (r: &'static [AudioCodec])
        ensures
            r@ == seq![AudioCodec::Aac, AudioCodec::Mp3, AudioCodec::Flac, AudioCodec::Copy],
    {
        &[AudioCodec::Aac, AudioCodec::Mp3, AudioCodec::Flac, AudioCodec::Copy]
    }
}

/// The audio bitrates offered, in kbit/s, each with its label.
pub fn audio_bitrate_options() -> (r: &'static [(u32, &'static str)])
    ensures
        r@.len() == 4,
        r@[0].0 == 128 && r@[0].1@ == "128 kbps"@,
        r@[1].0 == 192 && r@[1].1@ == "192 kbps"@,
        r@[2].0 == 256 && r@[2].1@ == "256 kbps"@,
        r@[3].0 == 320 && r@[3].1@ == "320 kbps"@,
{
    &[(128, "128 kbps"), (192, "192 kbps"), (256, "256 kbps"), (320, "320 kbps")]
}

} // verus!
