//! Classification of the engine's error output into actionable kinds.
use vstd::prelude::*;

use crate::text::{
    chars_of, contains, has_sub, join2, join3, lines_of, lower_of, lowercase, opt_view, owned, split_lines,
    split_words, string_from, words_of,
};

verus! {

/// The closed set of failure kinds.
#[derive(Debug, Clone, PartialEq)]
pub enum FfmpegErrorKind {
    /// The named encoder is missing.
    EncoderNotSupported(String),
    /// The named decoder is missing.
    DecoderNotSupported(String),
    /// The named hardware accelerator cannot be used.
    HwAccelNotAvailable(String),
    InputNotFound,
    InputCorrupted,
    OutputWriteError,
    DiskFull,
    OutOfMemory,
    PermissionDenied,
    /// The named option is not accepted.
    InvalidCodecOption(String),
    /// Anything else, with the most telling line of the output.
    Unknown(String),
}

/// A failure kind with its text as characters.
pub enum ErrorClass {
    EncoderNotSupported(Seq<char>),
    DecoderNotSupported(Seq<char>),
    HwAccelNotAvailable(Seq<char>),
    InputNotFound,
    InputCorrupted,
    OutputWriteError,
    DiskFull,
    OutOfMemory,
    PermissionDenied,
    InvalidCodecOption(Seq<char>),
    Unknown(Seq<char>),
}

impl View for FfmpegErrorKind {
    type V = ErrorClass;

    open spec fn view(&self) -> ErrorClass {
        match self {
            FfmpegErrorKind::EncoderNotSupported(s) => ErrorClass::EncoderNotSupported(s@),
            FfmpegErrorKind::DecoderNotSupported(s) => ErrorClass::DecoderNotSupported(s@),
            FfmpegErrorKind::HwAccelNotAvailable(s) => ErrorClass::HwAccelNotAvailable(s@),
            FfmpegErrorKind::InputNotFound => ErrorClass::InputNotFound,
            FfmpegErrorKind::InputCorrupted => ErrorClass::InputCorrupted,
            FfmpegErrorKind::OutputWriteError => ErrorClass::OutputWriteError,
            FfmpegErrorKind::DiskFull => ErrorClass::DiskFull,
            FfmpegErrorKind::OutOfMemory => ErrorClass::OutOfMemory,
            FfmpegErrorKind::PermissionDenied => ErrorClass::PermissionDenied,
            FfmpegErrorKind::InvalidCodecOption(s) => ErrorClass::InvalidCodecOption(s@),
            FfmpegErrorKind::Unknown(s) => ErrorClass::Unknown(s@),
        }
    }
}

/// A classified failure.
#[derive(Debug, Clone)]
pub struct FfmpegError {
    /// The kind of failure.
    pub kind: FfmpegErrorKind,
    /// Short explanation for the user.
    pub user_message: String,
    /// What the user can do about it, where anything helps.
    pub suggestion: Option<String>,
    /// The engine's output as it was.
    pub raw_message: String,
}

// ---------------------------------------------------------------------------
// Text scanning
// ---------------------------------------------------------------------------

/// First index at or after `from` where `s` holds `c`.
pub open spec fn find_char(s: Seq<char>, c: char, from: int) -> Option<int>
    decreases s.len() - from,
{
    if from < 0 || from >= s.len() {
        None
    } else if s[from] == c {
        Some(from)
    } else {
        find_char(s, c, from + 1)
    }
}

/// The text between the first two single quotes of a line.
pub open spec fn quoted(line: Seq<char>) -> Option<Seq<char>> {
    match find_char(line, '\'', 0) {
        Some(a) => match find_char(line, '\'', a + 1) {
            Some(b) => Some(line.subrange(a + 1, b)),
            None => None,
        },
        None => None,
    }
}

pub open spec fn is_quote(c: char) -> bool {
    c == '\'' || c == '"'
}

/// A word without leading and trailing quote characters.
pub open spec fn strip_quotes(s: Seq<char>) -> Seq<char> {
    s.subrange(quote_prefix(s, 0), quote_suffix_start(s, s.len() as int, quote_prefix(s, 0)))
}

/// End of the run of quote characters that starts at `i`.
pub open spec fn quote_prefix(s: Seq<char>, i: int) -> int
    decreases s.len() - i,
{
    if 0 <= i < s.len() && is_quote(s[i]) {
        quote_prefix(s, i + 1)
    } else {
        i
    }
}

/// Start of the run of quote characters that ends at `j`, not before `lo`.
pub open spec fn quote_suffix_start(s: Seq<char>, j: int, lo: int) -> int
    decreases j - lo,
{
    if lo < j && j <= s.len() && is_quote(s[j - 1]) {
        quote_suffix_start(s, j - 1, lo)
    } else {
        j
    }
}

/// After the word `encoder` (in any case), the next word without quotes,
/// unless it is empty or `not`.
pub open spec fn word_after_encoder(words: Seq<Seq<char>>, i: int) -> Option<Seq<char>>
    decreases words.len() - i,
{
    if i < 0 || i >= words.len() {
        None
    } else if lower_of(words[i]) == "encoder"@ && i + 1 < words.len() && strip_quotes(words[i + 1]).len()
        > 0 && strip_quotes(words[i + 1]) != "not"@ {
        Some(strip_quotes(words[i + 1]))
    } else {
        word_after_encoder(words, i + 1)
    }
}

/// The name a line gives, if its lower-case form mentions `key`: the first
/// quoted text, or for encoders also the word after `encoder`.
pub open spec fn line_value(line: Seq<char>, key: Seq<char>, by_word: bool) -> Option<Seq<char>> {
    if has_sub(lower_of(line), key) {
        match quoted(line) {
            Some(q) => Some(q),
            None => if by_word {
                word_after_encoder(words_of(line), 0)
            } else {
                None
            },
        }
    } else {
        None
    }
}

/// The name given by the first line that gives one.
pub open spec fn first_value(lines: Seq<Seq<char>>, key: Seq<char>, by_word: bool) -> Option<Seq<char>>
    decreases lines.len(),
{
    if lines.len() == 0 {
        None
    } else {
        match line_value(lines[0], key, by_word) {
            Some(v) => Some(v),
            None => first_value(lines.drop_first(), key, by_word),
        }
    }
}

/// The name extracted for `key` from a whole output, `不明` when none is found.
pub open spec fn extracted(raw: Seq<char>, key: Seq<char>, by_word: bool) -> Seq<char> {
    match first_value(lines_of(raw), key, by_word) {
        Some(v) => v,
        None => "不明"@,
    }
}

/// Whether a line reads like an error report.
pub open spec fn is_error_line(line: Seq<char>) -> bool {
    let l = lower_of(line);
    has_sub(l, "error"@) || has_sub(l, "failed"@) || has_sub(l, "cannot"@) || has_sub(l, "unable"@)
}

/// The last line that reads like an error report.
pub open spec fn last_error_line(lines: Seq<Seq<char>>) -> Option<Seq<char>>
    decreases lines.len(),
{
    if lines.len() == 0 {
        None
    } else if is_error_line(lines.last()) {
        Some(lines.last())
    } else {
        last_error_line(lines.drop_last())
    }
}

/// At most `max` characters, with `...` appended when something was cut.
pub open spec fn truncated(msg: Seq<char>, max: nat) -> Seq<char> {
    if msg.len() <= max {
        msg
    } else {
        msg.take(max as int) + "..."@
    }
}

// ---------------------------------------------------------------------------
// Rules, checked in this order
// ---------------------------------------------------------------------------

pub open spec fn failure_word(low: Seq<char>) -> bool {
    has_sub(low, "error"@) || has_sub(low, "failed"@) || has_sub(low, "not found"@)
}

pub open spec fn rule_qsv(low: Seq<char>) -> bool {
    has_sub(low, "no qsv-supporting device"@) || has_sub(low, "device creation failed"@) && has_sub(
        low,
        "qsv"@,
    ) || has_sub(low, "mfx"@) && (has_sub(low, "error"@) || has_sub(low, "failed"@)) || has_sub(
        low,
        "h264_qsv"@,
    ) && failure_word(low) || has_sub(low, "hevc_qsv"@) && failure_word(low) || has_sub(
        low,
        "av1_qsv"@,
    ) && failure_word(low) || has_sub(low, "libmfx"@) && has_sub(low, "not found"@) || has_sub(
        low,
        "qsv"@,
    ) && has_sub(low, "init"@)
}

pub open spec fn rule_nvenc(low: Seq<char>) -> bool {
    has_sub(low, "no nvenc capable devices found"@) || has_sub(low, "cannot load nvcuda.dll"@)
        || has_sub(low, "cannot load nvencodeapi"@) || has_sub(low, "h264_nvenc"@) && failure_word(low)
        || has_sub(low, "hevc_nvenc"@) && failure_word(low)
}

pub open spec fn rule_amf(low: Seq<char>) -> bool {
    has_sub(low, "amf failed"@) || has_sub(low, "no amf capable device"@) || has_sub(low, "h264_amf"@)
        && failure_word(low) || has_sub(low, "hevc_amf"@) && failure_word(low)
}

pub open spec fn rule_hwaccel(low: Seq<char>) -> bool {
    (has_sub(low, "nvenc"@) || has_sub(low, "qsv"@) || has_sub(low, "amf"@) || has_sub(low, "cuda"@)
        || has_sub(low, "d3d11"@) || has_sub(low, "vaapi"@)) && (has_sub(low, "cannot load"@)
        || has_sub(low, "failed to"@) || has_sub(low, "not found"@) || has_sub(low, "unavailable"@)
        || has_sub(low, "no capable devices"@))
}

pub open spec fn rule_encoder(low: Seq<char>) -> bool {
    has_sub(low, "unknown encoder"@) || has_sub(low, "encoder"@) && has_sub(low, "not found"@)
        || has_sub(low, "no such encoder"@)
}

pub open spec fn rule_decoder(low: Seq<char>) -> bool {
    has_sub(low, "decoder"@) && has_sub(low, "not found"@) || has_sub(low, "unknown decoder"@)
}

pub open spec fn rule_input_missing(low: Seq<char>) -> bool {
    has_sub(low, "no such file"@) || has_sub(low, "does not exist"@) || has_sub(low, "file not found"@)
}

pub open spec fn rule_corrupt(low: Seq<char>) -> bool {
    has_sub(low, "invalid data found"@) || has_sub(low, "corrupt"@) || has_sub(
        low,
        "moov atom not found"@,
    ) || has_sub(low, "end of file"@) && has_sub(low, "invalid"@)
}

pub open spec fn rule_permission(low: Seq<char>) -> bool {
    has_sub(low, "permission denied"@) || has_sub(low, "access denied"@)
}

pub open spec fn rule_disk_full(low: Seq<char>) -> bool {
    has_sub(low, "no space left"@) || has_sub(low, "disk full"@) || has_sub(low, "not enough space"@)
}

pub open spec fn rule_output(low: Seq<char>) -> bool {
    has_sub(low, "cannot open"@) && (has_sub(low, "output"@) || has_sub(low, "writing"@))
}

pub open spec fn rule_memory(low: Seq<char>) -> bool {
    has_sub(low, "out of memory"@) || has_sub(low, "memory allocation failed"@) || has_sub(
        low,
        "cannot allocate"@,
    )
}

pub open spec fn rule_option(low: Seq<char>) -> bool {
    has_sub(low, "option"@) && has_sub(low, "not found"@) || has_sub(low, "unrecognized option"@)
        || has_sub(low, "invalid option"@)
}

/// The accelerator a lower-case output speaks of, specific encoder names first.
pub open spec fn spec_hwaccel_name(low: Seq<char>) -> Seq<char> {
    if has_sub(low, "h264_qsv"@) || has_sub(low, "hevc_qsv"@) || has_sub(low, "av1_qsv"@) || has_sub(
        low,
        "vp9_qsv"@,
    ) {
        "Intel QSV"@
    } else if has_sub(low, "h264_amf"@) || has_sub(low, "hevc_amf"@) || has_sub(low, "av1_amf"@) {
        "AMD AMF"@
    } else if has_sub(low, "h264_nvenc"@) || has_sub(low, "hevc_nvenc"@) || has_sub(low, "av1_nvenc"@) {
        "NVIDIA NVENC"@
    } else if has_sub(low, "qsv"@) || has_sub(low, "quick sync"@) || has_sub(low, "mfx"@) {
        "Intel QSV"@
    } else if has_sub(low, "amf"@) || has_sub(low, "advanced media framework"@) {
        "AMD AMF"@
    } else if has_sub(low, "nvenc"@) || has_sub(low, "cuda"@) || has_sub(low, "nvcuda"@) {
        "NVIDIA NVENC"@
    } else if has_sub(low, "vaapi"@) {
        "VAAPI"@
    } else {
        "ハードウェアアクセラレーション"@
    }
}

/// The kind of failure an output reports, given the output and its
/// lower-case form: vendor hardware signatures first, then generic
/// hardware failures, then missing encoders and decoders, then file,
/// disk, memory and option problems, and last an unknown failure.
pub open spec fn classify(raw: Seq<char>, low: Seq<char>) -> ErrorClass {
    if rule_qsv(low) {
        ErrorClass::HwAccelNotAvailable("Intel QSV"@)
    } else if rule_nvenc(low) {
        ErrorClass::HwAccelNotAvailable("NVIDIA NVENC"@)
    } else if rule_amf(low) {
        ErrorClass::HwAccelNotAvailable("AMD AMF"@)
    } else if rule_hwaccel(low) {
        ErrorClass::HwAccelNotAvailable(spec_hwaccel_name(low))
    } else if rule_encoder(low) {
        ErrorClass::EncoderNotSupported(extracted(raw, "encoder"@, true))
    } else if rule_decoder(low) {
        ErrorClass::DecoderNotSupported(extracted(raw, "decoder"@, false))
    } else if rule_input_missing(low) {
        ErrorClass::InputNotFound
    } else if rule_corrupt(low) {
        ErrorClass::InputCorrupted
    } else if rule_permission(low) {
        ErrorClass::PermissionDenied
    } else if rule_disk_full(low) {
        ErrorClass::DiskFull
    } else if rule_output(low) {
        ErrorClass::OutputWriteError
    } else if rule_memory(low) {
        ErrorClass::OutOfMemory
    } else if rule_option(low) {
        ErrorClass::InvalidCodecOption(extracted(raw, "option"@, false))
    } else {
        ErrorClass::Unknown(
            match last_error_line(lines_of(raw)) {
                Some(l) => l,
                None => "変換中にエラーが発生しました"@,
            },
        )
    }
}

// ---------------------------------------------------------------------------
// Messages
// ---------------------------------------------------------------------------

/// Readable name of an encoder identifier.
pub open spec fn spec_encoder_display_name(e: Seq<char>) -> Seq<char> {
    if e == "h264_nvenc"@ {
        "H.264 NVENC (NVIDIA)"@
    } else if e == "hevc_nvenc"@ {
        "H.265/HEVC NVENC (NVIDIA)"@
    } else if e == "av1_nvenc"@ {
        "AV1 NVENC (NVIDIA)"@
    } else if e == "h264_qsv"@ {
        "H.264 QSV (Intel)"@
    } else if e == "hevc_qsv"@ {
        "H.265/HEVC QSV (Intel)"@
    } else if e == "av1_qsv"@ {
        "AV1 QSV (Intel)"@
    } else if e == "vp9_qsv"@ {
        "VP9 QSV (Intel)"@
    } else if e == "h264_amf"@ {
        "H.264 AMF (AMD)"@
    } else if e == "hevc_amf"@ {
        "H.265/HEVC AMF (AMD)"@
    } else if e == "av1_amf"@ {
        "AV1 AMF (AMD)"@
    } else if e == "libx264"@ {
        "H.264 (ソフトウェア)"@
    } else if e == "libx265"@ {
        "H.265/HEVC (ソフトウェア)"@
    } else if e == "libvpx-vp9"@ {
        "VP9 (ソフトウェア)"@
    } else if e == "libsvtav1"@ {
        "AV1 (ソフトウェア)"@
    } else if e == "aac"@ {
        "AAC オーディオ"@
    } else if e == "libmp3lame"@ {
        "MP3 オーディオ"@
    } else if e == "flac"@ {
        "FLAC オーディオ"@
    } else {
        e
    }
}

/// What to do about a missing encoder.
pub open spec fn spec_encoder_suggestion(e: Seq<char>) -> Seq<char> {
    if has_sub(e, "nvenc"@) {
        "NVIDIAグラフィックカードが必要です。HWアクセラレーション設定を「ソフトウェア」に変更してください"@
    } else if has_sub(e, "qsv"@) {
        "Intel製CPUの内蔵グラフィックスが必要です。HWアクセラレーション設定を「ソフトウェア」に変更してください"@
    } else if has_sub(e, "amf"@) {
        "AMDグラフィックカードが必要です。HWアクセラレーション設定を「ソフトウェア」に変更してください"@
    } else if has_sub(e, "libsvtav1"@) || has_sub(e, "av1"@) {
        "AV1エンコーダーがインストールされていません。H.264またはH.265コーデックをお試しください"@
    } else if has_sub(e, "libmp3lame"@) {
        "MP3エンコーダー(LAME)がインストールされていません。AACオーディオコーデックをお試しください"@
    } else {
        "別のコーデックまたはHWアクセラレーション設定をお試しください"@
    }
}

/// The message shown for each kind.
pub open spec fn spec_user_message(k: ErrorClass) -> Seq<char> {
    match k {
        ErrorClass::EncoderNotSupported(e) => "エンコーダー「"@ + spec_encoder_display_name(e)
            + "」はこのシステムでサポートされていません"@,
        ErrorClass::HwAccelNotAvailable(h) => "ハードウェアアクセラレーション「"@ + h + "」が利用できません"@,
        ErrorClass::DecoderNotSupported(d) => "入力ファイルのコーデック「"@ + d + "」はサポートされていません"@,
        ErrorClass::InputNotFound => "入力ファイルが見つかりません"@,
        ErrorClass::InputCorrupted => "入力ファイルが破損しているか、形式が不正です"@,
        ErrorClass::PermissionDenied => "ファイルへのアクセス権限がありません"@,
        ErrorClass::DiskFull => "ディスク容量が不足しています"@,
        ErrorClass::OutputWriteError => "出力ファイルを作成できません"@,
        ErrorClass::OutOfMemory => "メモリが不足しています"@,
        ErrorClass::InvalidCodecOption(o) => "コーデックオプション「"@ + o + "」が無効です"@,
        ErrorClass::Unknown(l) => "変換エラー: "@ + truncated(l, 100),
    }
}

/// The remedy offered for each kind; an unknown failure has none.
pub open spec fn spec_suggestion(k: ErrorClass) -> Option<Seq<char>> {
    match k {
        ErrorClass::EncoderNotSupported(e) => Some(spec_encoder_suggestion(e)),
        ErrorClass::HwAccelNotAvailable(_) => Some(
            "HWアクセラレーション設定を「ソフトウェア」に変更するか、グラフィックドライバーを最新版に更新してください"@,
        ),
        ErrorClass::DecoderNotSupported(_) => Some(
            "この入力形式をサポートするFFmpegビルドが必要です。GPLビルドのFFmpegをお試しください"@,
        ),
        ErrorClass::InputNotFound => Some("ファイルが移動または削除されていないか確認してください"@),
        ErrorClass::InputCorrupted => Some(
            "ファイルが正常に再生できるか確認してください。ダウンロードが途中で中断された可能性があります"@,
        ),
        ErrorClass::PermissionDenied => Some(
            "出力先フォルダへの書き込み権限があるか確認してください。管理者権限が必要な場合があります"@,
        ),
        ErrorClass::DiskFull => Some("出力先ドライブの空き容量を確保してください"@),
        ErrorClass::OutputWriteError => Some(
            "出力先フォルダが存在し、書き込み可能であることを確認してください"@,
        ),
        ErrorClass::OutOfMemory => Some("他のアプリケーションを終了するか、解像度を下げてお試しください"@),
        ErrorClass::InvalidCodecOption(_) => Some(
            "選択したエンコーダーはこのオプションをサポートしていません。設定を変更してお試しください"@,
        ),
        ErrorClass::Unknown(_) => None,
    }
}

/// The full text shown for a kind: the message, then the remedy if any.
pub open spec fn spec_full_message(k: ErrorClass) -> Seq<char> {
    match spec_suggestion(k) {
        Some(t) => spec_user_message(k) + "\n\n💡 "@ + t,
        None => spec_user_message(k),
    }
}

impl FfmpegError {
    /// The error's fields follow from its kind and the raw text.
    pub open spec fn describes(&self, k: ErrorClass, raw: Seq<char>) -> bool {
        &&& self.kind@ == k
        &&& self.user_message@ == spec_user_message(k)
        &&& opt_view(self.suggestion) == spec_suggestion(k)
        &&& self.raw_message@ == raw
    }
}

fn has_failure_word(low: &str) -> (r: bool)
    ensures
        r == failure_word(low@),
{
    contains(low, "error") || contains(low, "failed") || contains(low, "not found")
}

fn has_rule_encoder(low: &str) -> (r: bool)
    ensures
        r == rule_encoder(low@),
{
    contains(low, "unknown encoder") || contains(low, "encoder") && contains(low, "not found")
        || contains(low, "no such encoder")
}

fn has_rule_qsv(low: &str) -> (r: bool)
    ensures
        r == rule_qsv(low@),
{
    contains(low, "no qsv-supporting device") || contains(low, "device creation failed") && contains(low, "qsv") || contains(low, "mfx") && (contains(low, "error") || contains(low, "failed")) || contains(low, "h264_qsv") && has_failure_word(low) || contains(low, "hevc_qsv") && has_failure_word(low) || contains(low, "av1_qsv") && has_failure_word(low) || contains(low, "libmfx") && contains(low, "not found") || contains(low, "qsv") && contains(low, "init")
}

fn has_rule_nvenc(low: &str) -> (r: bool)
    ensures
        r == rule_nvenc(low@),
{
    contains(low, "no nvenc capable devices found") || contains(low, "cannot load nvcuda.dll")
        || contains(low, "cannot load nvencodeapi") || contains(low, "h264_nvenc") && has_failure_word(low)
        || contains(low, "hevc_nvenc") && has_failure_word(low)
}

fn has_rule_amf(low: &str) -> (r: bool)
    ensures
        r == rule_amf(low@),
{
    contains(low, "amf failed") || contains(low, "no amf capable device") || contains(low, "h264_amf")
        && has_failure_word(low) || contains(low, "hevc_amf") && has_failure_word(low)
}

fn has_rule_hwaccel(low: &str) -> (r: bool)
    ensures
        r == rule_hwaccel(low@),
{
    (contains(low, "nvenc") || contains(low, "qsv") || contains(low, "amf") || contains(low, "cuda")
        || contains(low, "d3d11") || contains(low, "vaapi")) && (contains(low, "cannot load")
        || contains(low, "failed to") || contains(low, "not found") || contains(low, "unavailable")
        || contains(low, "no capable devices"))
}

fn has_rule_decoder(low: &str) -> (r: bool)
    ensures
        r == rule_decoder(low@),
{
    contains(low, "decoder") && contains(low, "not found") || contains(low, "unknown decoder")
}

fn has_rule_input_missing(low: &str) -> (r: bool)
    ensures
        r == rule_input_missing(low@),
{
    contains(low, "no such file") || contains(low, "does not exist") || contains(low, "file not found")
}

fn has_rule_corrupt(low: &str) -> (r: bool)
    ensures
        r == rule_corrupt(low@),
{
    contains(low, "invalid data found") || contains(low, "corrupt") || contains(low, "moov atom not found") || contains(low, "end of file") && contains(low, "invalid")
}

fn has_rule_permission(low: &str) -> (r: bool)
    ensures
        r == rule_permission(low@),
{
    contains(low, "permission denied") || contains(low, "access denied")
}

fn has_rule_disk_full(low: &str) -> (r: bool)
    ensures
        r == rule_disk_full(low@),
{
    contains(low, "no space left") || contains(low, "disk full") || contains(low, "not enough space")
}

fn has_rule_output(low: &str) -> (r: bool)
    ensures
        r == rule_output(low@),
{
    contains(low, "cannot open") && (contains(low, "output") || contains(low, "writing"))
}

fn has_rule_memory(low: &str) -> (r: bool)
    ensures
        r == rule_memory(low@),
{
    contains(low, "out of memory") || contains(low, "memory allocation failed") || contains(low, "cannot allocate")
}

fn has_rule_option(low: &str) -> (r: bool)
    ensures
        r == rule_option(low@),
{
    contains(low, "option") && contains(low, "not found") || contains(low, "unrecognized option")
        || contains(low, "invalid option")
}

fn find_quote(cs: &Vec<char>, from: usize) -> (r: Option<usize>)
    ensures
        match r {
            Some(i) => find_char(cs@, '\'', from as int) == Some(i as int) && i < cs@.len(),
            None => find_char(cs@, '\'', from as int) is None,
        },
    decreases cs.len() - from,
{
    if from >= cs.len() {
        None
    } else if cs[from] == '\'' {
        Some(from)
    } else {
        find_quote(cs, from + 1)
    }
}

/// Characters `lo..hi` of `cs` as a `String`.
fn text_between(cs: &Vec<char>, lo: usize, hi: usize) -> (r: String)
    requires
        lo <= hi <= cs@.len(),
    ensures
        r@ == cs@.subrange(lo as int, hi as int),
{
    let mut out: Vec<char> = Vec::new();
    let mut i = lo;
    while i < hi
        invariant
            lo <= i <= hi <= cs@.len(),
            out@ == cs@.subrange(lo as int, i as int),
        decreases hi - i,
    {
        out.push(cs[i]);
        assert(out@ =~= cs@.subrange(lo as int, i + 1));
        i = i + 1;
    }
    string_from(out.as_slice())
}

fn quoted_text(line: &str) -> (r: Option<String>)
    ensures
        opt_view(r) == quoted(line@),
{
    let cs = chars_of(line);
    match find_quote(&cs, 0) {
        Some(a) => match find_quote(&cs, a + 1) {
            Some(b) => {
                proof {
                    lemma_find_char_after(cs@, '\'', a as int + 1);
                }
                Some(text_between(&cs, a + 1, b))
            },
            None => None,
        },
        None => None,
    }
}

proof fn lemma_find_char_after(s: Seq<char>, c: char, from: int)
    requires
        0 <= from,
    ensures
        find_char(s, c, from) matches Some(i) ==> from <= i < s.len() && s[i] == c,
    decreases s.len() - from,
{
    if from < s.len() && s[from] != c {
        lemma_find_char_after(s, c, from + 1);
    }
}

fn strip_quote_chars(w: &str) -> (r: String)
    ensures
        r@ == strip_quotes(w@),
{
    let cs = chars_of(w);
    let mut lo: usize = 0;
    while lo < cs.len() && (cs[lo] == '\'' || cs[lo] == '"')
        invariant
            lo <= cs@.len(),
            quote_prefix(cs@, 0) == quote_prefix(cs@, lo as int),
        decreases cs.len() - lo,
    {
        lo = lo + 1;
    }
    let mut hi: usize = cs.len();
    while hi > lo && (cs[hi - 1] == '\'' || cs[hi - 1] == '"')
        invariant
            lo <= hi <= cs@.len(),
            quote_prefix(cs@, 0) == lo,
            quote_suffix_start(cs@, cs@.len() as int, lo as int) == quote_suffix_start(
                cs@,
                hi as int,
                lo as int,
            ),
        decreases hi - lo,
    {
        hi = hi - 1;
    }
    text_between(&cs, lo, hi)
}

fn word_after_encoder_from(words: &Vec<String>, i: usize) -> (r: Option<String>)
    requires
        i <= words@.len(),
    ensures
        opt_view(r) == word_after_encoder(crate::job::strs(words@), i as int),
    decreases words.len() - i,
{
    let ghost ws = crate::job::strs(words@);
    if i >= words.len() {
        return None;
    }
    let low = lowercase(words[i].as_str());
    if low == owned("encoder") && i + 1 < words.len() {
        let name = strip_quote_chars(words[i + 1].as_str());
        if name.as_str().unicode_len() > 0 && !(name == owned("not")) {
            return Some(name);
        }
    }
    word_after_encoder_from(words, i + 1)
}

fn value_of_line(line: &str, key: &str, by_word: bool) -> (r: Option<String>)
    ensures
        opt_view(r) == line_value(line@, key@, by_word),
{
    let low = lowercase(line);
    if !contains(low.as_str(), key) {
        return None;
    }
    match quoted_text(line) {
        Some(q) => Some(q),
        None => if by_word {
            let words = split_words(line);
            assert(crate::job::strs(words@) =~= words_of(line@));
            word_after_encoder_from(&words, 0)
        } else {
            None
        },
    }
}

/// The name given for `key` by the first line that gives one, else `不明`.
fn extract_name(stderr: &str, key: &str, by_word: bool) -> (r: String)
    ensures
        r@ == extracted(stderr@, key@, by_word),
{
    let lines = split_lines(stderr);
    let ghost all = lines_of(stderr@);
    let mut i: usize = 0;
    assert(all.skip(0) =~= all);
    while i < lines.len()
        invariant
            i <= lines.len(),
            lines@.len() == all.len(),
            all == lines_of(stderr@),
            forall|k: int| 0 <= k < lines@.len() ==> #[trigger] lines@[k]@ == all[k],
            first_value(all, key@, by_word) == first_value(all.skip(i as int), key@, by_word),
        decreases lines.len() - i,
    {
        let ghost rest = all.skip(i as int);
        assert(rest[0] == lines@[i as int]@);
        assert(rest.drop_first() =~= all.skip(i as int + 1));
        match value_of_line(lines[i].as_str(), key, by_word) {
            Some(v) => {
                return v;
            },
            None => {},
        }
        i = i + 1;
    }
    assert(all.skip(i as int).len() == 0);
    owned("不明")
}

fn is_error_text(line: &str) -> (r: bool)
    ensures
        r == is_error_line(line@),
{
    let l = lowercase(line);
    contains(l.as_str(), "error") || contains(l.as_str(), "failed") || contains(l.as_str(), "cannot")
        || contains(l.as_str(), "unable")
}

impl FfmpegError {
    /// Classifies the engine's error output.
    pub fn parse(stderr: &str) -> (r: Self)
        ensures
            r.describes(classify(stderr@, lower_of(stderr@)), stderr@),
    {
        let stderr_lower = lowercase(stderr);
        Self::parse_lowered(stderr, stderr_lower.as_str())
    }

    /// Classifies the engine's error output, given also its lower-case form.
    pub fn parse_lowered(stderr: &str, stderr_lower: &str) -> (r: Self)
        ensures
            r.describes(classify(stderr@, stderr_lower@), stderr@),
    {
        let low = stderr_lower;
        if has_rule_qsv(low) {
            return Self::hwaccel_not_available("Intel QSV", stderr);
        }
        if has_rule_nvenc(low) {
            return Self::hwaccel_not_available("NVIDIA NVENC", stderr);
        }
        if has_rule_amf(low) {
            return Self::hwaccel_not_available("AMD AMF", stderr);
        }
        if has_rule_hwaccel(low) {
            let hwaccel = Self::extract_hwaccel_name(low);
            return Self::hwaccel_not_available(hwaccel, stderr);
        }
        if has_rule_encoder(low) {
            let encoder = Self::extract_encoder_name(stderr);
            return Self::encoder_not_supported(encoder.as_str(), stderr);
        }
        if has_rule_decoder(low) {
            let decoder = Self::extract_decoder_name(stderr);
            return Self::decoder_not_supported(decoder.as_str(), stderr);
        }
        if has_rule_input_missing(low) {
            return Self::input_not_found(stderr);
        }
        if has_rule_corrupt(low) {
            return Self::input_corrupted(stderr);
        }
        if has_rule_permission(low) {
            return Self::permission_denied(stderr);
        }
        if has_rule_disk_full(low) {
            return Self::disk_full(stderr);
        }
        if has_rule_output(low) {
            return Self::output_write_error(stderr);
        }
        if has_rule_memory(low) {
            return Self::out_of_memory(stderr);
        }
        if has_rule_option(low) {
            let option = Self::extract_option_name(stderr);
            return Self::invalid_codec_option(option.as_str(), stderr);
        }
        Self::unknown(stderr)
    }

    fn encoder_not_supported(encoder: &str, raw: &str) -> (r: Self)
        ensures
            r.describes(ErrorClass::EncoderNotSupported(encoder@), raw@),
    {
        let display_name = Self::get_encoder_display_name(encoder);
        FfmpegError {
            kind: FfmpegErrorKind::EncoderNotSupported(owned(encoder)),
            user_message: join3("エンコーダー「", display_name.as_str(), "」はこのシステムでサポートされていません"),
            suggestion: Some(Self::get_encoder_suggestion(encoder)),
            raw_message: owned(raw),
        }
    }

    fn hwaccel_not_available(hwaccel: &str, raw: &str) -> (r: Self)
        ensures
            r.describes(ErrorClass::HwAccelNotAvailable(hwaccel@), raw@),
    {
        FfmpegError {
            kind: FfmpegErrorKind::HwAccelNotAvailable(owned(hwaccel)),
            user_message: join3("ハードウェアアクセラレーション「", hwaccel, "」が利用できません"),
            suggestion: Some(
                owned(
                    "HWアクセラレーション設定を「ソフトウェア」に変更するか、グラフィックドライバーを最新版に更新してください",
                ),
            ),
            raw_message: owned(raw),
        }
    }

    fn decoder_not_supported(decoder: &str, raw: &str) -> (r: Self)
        ensures
            r.describes(ErrorClass::DecoderNotSupported(decoder@), raw@),
    {
        FfmpegError {
            kind: FfmpegErrorKind::DecoderNotSupported(owned(decoder)),
            user_message: join3("入力ファイルのコーデック「", decoder, "」はサポートされていません"),
            suggestion: Some(
                owned("この入力形式をサポートするFFmpegビルドが必要です。GPLビルドのFFmpegをお試しください"),
            ),
            raw_message: owned(raw),
        }
    }

    fn input_not_found(raw: &str) -> (r: Self)
        ensures
            r.describes(ErrorClass::InputNotFound, raw@),
    {
        FfmpegError {
            kind: FfmpegErrorKind::InputNotFound,
            user_message: owned("入力ファイルが見つかりません"),
            suggestion: Some(owned("ファイルが移動または削除されていないか確認してください")),
            raw_message: owned(raw),
        }
    }

    fn input_corrupted(raw: &str) -> (r: Self)
        ensures
            r.describes(ErrorClass::InputCorrupted, raw@),
    {
        FfmpegError {
            kind: FfmpegErrorKind::InputCorrupted,
            user_message: owned("入力ファイルが破損しているか、形式が不正です"),
            suggestion: Some(
                owned("ファイルが正常に再生できるか確認してください。ダウンロードが途中で中断された可能性があります"),
            ),
            raw_message: owned(raw),
        }
    }

    fn permission_denied(raw: &str) -> (r: Self)
        ensures
            r.describes(ErrorClass::PermissionDenied, raw@),
    {
        FfmpegError {
            kind: FfmpegErrorKind::PermissionDenied,
            user_message: owned("ファイルへのアクセス権限がありません"),
            suggestion: Some(
                owned("出力先フォルダへの書き込み権限があるか確認してください。管理者権限が必要な場合があります"),
            ),
            raw_message: owned(raw),
        }
    }

    fn disk_full(raw: &str) -> (r: Self)
        ensures
            r.describes(ErrorClass::DiskFull, raw@),
    {
        FfmpegError {
            kind: FfmpegErrorKind::DiskFull,
            user_message: owned("ディスク容量が不足しています"),
            suggestion: Some(owned("出力先ドライブの空き容量を確保してください")),
            raw_message: owned(raw),
        }
    }

    fn output_write_error(raw: &str) -> (r: Self)
        ensures
            r.describes(ErrorClass::OutputWriteError, raw@),
    {
        FfmpegError {
            kind: FfmpegErrorKind::OutputWriteError,
            user_message: owned("出力ファイルを作成できません"),
            suggestion: Some(owned("出力先フォルダが存在し、書き込み可能であることを確認してください")),
            raw_message: owned(raw),
        }
    }

    fn out_of_memory(raw: &str) -> (r: Self)
        ensures
            r.describes(ErrorClass::OutOfMemory, raw@),
    {
        FfmpegError {
            kind: FfmpegErrorKind::OutOfMemory,
            user_message: owned("メモリが不足しています"),
            suggestion: Some(owned("他のアプリケーションを終了するか、解像度を下げてお試しください")),
            raw_message: owned(raw),
        }
    }

    fn invalid_codec_option(option: &str, raw: &str) -> (r: Self)
        ensures
            r.describes(ErrorClass::InvalidCodecOption(option@), raw@),
    {
        FfmpegError {
            kind: FfmpegErrorKind::InvalidCodecOption(owned(option)),
            user_message: join3("コーデックオプション「", option, "」が無効です"),
            suggestion: Some(
                owned("選択したエンコーダーはこのオプションをサポートしていません。設定を変更してお試しください"),
            ),
            raw_message: owned(raw),
        }
    }

    fn unknown(raw: &str) -> (r: Self)
        ensures
            r.describes(
                ErrorClass::Unknown(
                    match last_error_line(lines_of(raw@)) {
                        Some(l) => l,
                        None => "変換中にエラーが発生しました"@,
                    },
                ),
                raw@,
            ),
    {
        let lines = split_lines(raw);
        let ghost all = lines_of(raw@);
        let mut i: usize = lines.len();
        let mut found: Option<usize> = None;
        assert(all.take(all.len() as int) =~= all);
        while i > 0 && found.is_none()
            invariant
                i <= lines@.len(),
                lines@.len() == all.len(),
                all == lines_of(raw@),
                forall|k: int| 0 <= k < lines@.len() ==> #[trigger] lines@[k]@ == all[k],
                match found {
                    Some(k) => k < lines@.len() && last_error_line(all) == Some(all[k as int]),
                    None => last_error_line(all) == last_error_line(all.take(i as int)),
                },
            decreases i + if found is None {
                1int
            } else {
                0int
            },
        {
            let ghost pre = all.take(i as int);
            assert(pre.last() == lines@[i - 1]@);
            assert(pre.drop_last() =~= all.take(i - 1));
            if is_error_text(lines[i - 1].as_str()) {
                found = Some(i - 1);
            } else {
                i = i - 1;
            }
        }
        let error_line = match found {
            Some(k) => {
                lines[k].clone()
            },
            None => {
                assert(all.take(0) =~= seq![]);
                owned("変換中にエラーが発生しました")
            },
        };
        let short = Self::truncate_message(error_line.as_str(), 100);
        let msg = join2("変換エラー: ", short.as_str());
        FfmpegError {
            kind: FfmpegErrorKind::Unknown(error_line),
            user_message: msg,
            suggestion: None,
            raw_message: owned(raw),
        }
    }

    fn extract_encoder_name(stderr: &str) -> (r: String)
        ensures
            r@ == extracted(stderr@, "encoder"@, true),
    {
        extract_name(stderr, "encoder", true)
    }

    fn extract_decoder_name(stderr: &str) -> (r: String)
        ensures
            r@ == extracted(stderr@, "decoder"@, false),
    {
        extract_name(stderr, "decoder", false)
    }

    fn extract_option_name(stderr: &str) -> (r: String)
        ensures
            r@ == extracted(stderr@, "option"@, false),
    {
        extract_name(stderr, "option", false)
    }

    fn extract_hwaccel_name(low: &str) -> (r: &'static str)
        ensures
            r@ == spec_hwaccel_name(low@),
    {
        if contains(low, "h264_qsv") || contains(low, "hevc_qsv") || contains(low, "av1_qsv")
            || contains(low, "vp9_qsv") {
            "Intel QSV"
        } else if contains(low, "h264_amf") || contains(low, "hevc_amf") || contains(low, "av1_amf") {
            "AMD AMF"
        } else if contains(low, "h264_nvenc") || contains(low, "hevc_nvenc") || contains(
            low,
            "av1_nvenc",
        ) {
            "NVIDIA NVENC"
        } else if contains(low, "qsv") || contains(low, "quick sync") || contains(low, "mfx") {
            "Intel QSV"
        } else if contains(low, "amf") || contains(low, "advanced media framework") {
            "AMD AMF"
        } else if contains(low, "nvenc") || contains(low, "cuda") || contains(low, "nvcuda") {
            "NVIDIA NVENC"
        } else if contains(low, "vaapi") {
            "VAAPI"
        } else {
            "ハードウェアアクセラレーション"
        }
    }

    fn get_encoder_display_name(encoder: &str) -> (r: String)
        ensures
            r@ == spec_encoder_display_name(encoder@),
    {
        let e = owned(encoder);
        if e == owned("h264_nvenc") {
            owned("H.264 NVENC (NVIDIA)")
        } else if e == owned("hevc_nvenc") {
            owned("H.265/HEVC NVENC (NVIDIA)")
        } else if e == owned("av1_nvenc") {
            owned("AV1 NVENC (NVIDIA)")
        } else if e == owned("h264_qsv") {
            owned("H.264 QSV (Intel)")
        } else if e == owned("hevc_qsv") {
            owned("H.265/HEVC QSV (Intel)")
        } else if e == owned("av1_qsv") {
            owned("AV1 QSV (Intel)")
        } else if e == owned("vp9_qsv") {
            owned("VP9 QSV (Intel)")
        } else if e == owned("h264_amf") {
            owned("H.264 AMF (AMD)")
        } else if e == owned("hevc_amf") {
            owned("H.265/HEVC AMF (AMD)")
        } else if e == owned("av1_amf") {
            owned("AV1 AMF (AMD)")
        } else if e == owned("libx264") {
            owned("H.264 (ソフトウェア)")
        } else if e == owned("libx265") {
            owned("H.265/HEVC (ソフトウェア)")
        } else if e == owned("libvpx-vp9") {
            owned("VP9 (ソフトウェア)")
        } else if e == owned("libsvtav1") {
            owned("AV1 (ソフトウェア)")
        } else if e == owned("aac") {
            owned("AAC オーディオ")
        } else if e == owned("libmp3lame") {
            owned("MP3 オーディオ")
        } else if e == owned("flac") {
            owned("FLAC オーディオ")
        } else {
            e
        }
    }

    fn get_encoder_suggestion(encoder: &str) -> (r: String)
        ensures
            r@ == spec_encoder_suggestion(encoder@),
    {
        if contains(encoder, "nvenc") {
            owned("NVIDIAグラフィックカードが必要です。HWアクセラレーション設定を「ソフトウェア」に変更してください")
        } else if contains(encoder, "qsv") {
            owned("Intel製CPUの内蔵グラフィックスが必要です。HWアクセラレーション設定を「ソフトウェア」に変更してください")
        } else if contains(encoder, "amf") {
            owned("AMDグラフィックカードが必要です。HWアクセラレーション設定を「ソフトウェア」に変更してください")
        } else if contains(encoder, "libsvtav1") || contains(encoder, "av1") {
            owned("AV1エンコーダーがインストールされていません。H.264またはH.265コーデックをお試しください")
        } else if contains(encoder, "libmp3lame") {
            owned("MP3エンコーダー(LAME)がインストールされていません。AACオーディオコーデックをお試しください")
        } else {
            owned("別のコーデックまたはHWアクセラレーション設定をお試しください")
        }
    }

    fn truncate_message(msg: &str, max_len: usize) -> (r: String)
        ensures
            r@ == truncated(msg@, max_len as nat),
    {
        let cs = chars_of(msg);
        if cs.len() <= max_len {
            owned(msg)
        } else {
            let head = text_between(&cs, 0, max_len);
            let mut out = head;
            out.append("...");
            out
        }
    }

    /// The user message, followed by the suggestion when there is one.
    pub fn format_user_message(&self) -> (r: String)
        ensures
            r@ == match opt_view(self.suggestion) {
                Some(t) => self.user_message@ + "\n\n💡 "@ + t,
                None => self.user_message@,
            },
    {
        let mut msg = self.user_message.clone();
        match &self.suggestion {
            Some(suggestion) => {
                msg.append("\n\n💡 ");
                msg.append(suggestion.as_str());
            },
            None => {},
        }
        msg
    }
}

} // verus!
