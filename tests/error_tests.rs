use kamaitachi::error::{FfmpegError, FfmpegErrorKind};

#[test]
fn test_parse_encoder_not_found() {
    let stderr = "Unknown encoder 'h264_nvenc'";
    let error = FfmpegError::parse(stderr);
    assert!(matches!(error.kind, FfmpegErrorKind::EncoderNotSupported(_)));
}

#[test]
fn test_parse_nvenc_not_available() {
    let stderr = "Cannot load nvcuda.dll";
    let error = FfmpegError::parse(stderr);
    assert!(matches!(error.kind, FfmpegErrorKind::HwAccelNotAvailable(_)));
}

#[test]
fn test_parse_input_not_found() {
    let stderr = "No such file or directory";
    let error = FfmpegError::parse(stderr);
    assert!(matches!(error.kind, FfmpegErrorKind::InputNotFound));
}

#[test]
fn test_parse_permission_denied() {
    let stderr = "Permission denied";
    let error = FfmpegError::parse(stderr);
    assert!(matches!(error.kind, FfmpegErrorKind::PermissionDenied));
}

#[test]
fn unknown_encoder_names_the_encoder() {
    let error = FfmpegError::parse("Unknown encoder 'h264_nvenc'");
    assert_eq!(error.kind, FfmpegErrorKind::EncoderNotSupported("h264_nvenc".to_string()));
    assert_eq!(error.user_message, "エンコーダー「H.264 NVENC (NVIDIA)」はこのシステムでサポートされていません");
    assert_eq!(
        error.suggestion.as_deref(),
        Some("NVIDIAグラフィックカードが必要です。HWアクセラレーション設定を「ソフトウェア」に変更してください")
    );
    assert_eq!(error.raw_message, "Unknown encoder 'h264_nvenc'");
}

#[test]
fn nvcuda_missing_is_nvenc_unavailable() {
    let error = FfmpegError::parse("Cannot load nvcuda.dll");
    assert_eq!(error.kind, FfmpegErrorKind::HwAccelNotAvailable("NVIDIA NVENC".to_string()));
    assert_eq!(error.user_message, "ハードウェアアクセラレーション「NVIDIA NVENC」が利用できません");
}

#[test]
fn upper_case_output_is_matched_case_insensitively() {
    let error = FfmpegError::parse("UNKNOWN ENCODER 'X'");
    assert_eq!(error.kind, FfmpegErrorKind::EncoderNotSupported("X".to_string()));
}

#[test]
fn encoder_name_taken_from_word_after_encoder() {
    let error = FfmpegError::parse("Encoder libfoo not found");
    assert_eq!(error.kind, FfmpegErrorKind::EncoderNotSupported("libfoo".to_string()));
    assert_eq!(error.user_message, "エンコーダー「libfoo」はこのシステムでサポートされていません");
    assert_eq!(error.suggestion.as_deref(), Some("別のコーデックまたはHWアクセラレーション設定をお試しください"));
}

#[test]
fn encoder_name_from_a_later_line() {
    let error = FfmpegError::parse("first line\nNo such encoder \"libx265\" here");
    assert_eq!(error.kind, FfmpegErrorKind::EncoderNotSupported("libx265".to_string()));
}

#[test]
fn qsv_session_error() {
    let error = FfmpegError::parse("Error initializing an internal MFX session");
    assert_eq!(error.kind, FfmpegErrorKind::HwAccelNotAvailable("Intel QSV".to_string()));
}

#[test]
fn amf_failure() {
    let error = FfmpegError::parse("AMF failed to initialise");
    assert_eq!(error.kind, FfmpegErrorKind::HwAccelNotAvailable("AMD AMF".to_string()));
}

#[test]
fn generic_hwaccel_failure_names_vaapi() {
    let error = FfmpegError::parse("Failed to initialise VAAPI connection");
    assert_eq!(error.kind, FfmpegErrorKind::HwAccelNotAvailable("VAAPI".to_string()));
}

#[test]
fn unknown_decoder() {
    let error = FfmpegError::parse("Unknown decoder 'hevc'");
    assert_eq!(error.kind, FfmpegErrorKind::DecoderNotSupported("hevc".to_string()));
    assert_eq!(error.user_message, "入力ファイルのコーデック「hevc」はサポートされていません");
}

#[test]
fn decoder_without_quotes_is_unnamed() {
    let error = FfmpegError::parse("Decoder (codec hevc) not found for input stream #0:0");
    assert_eq!(error.kind, FfmpegErrorKind::DecoderNotSupported("不明".to_string()));
}

#[test]
fn corrupted_input() {
    let error = FfmpegError::parse("Invalid data found when processing input");
    assert_eq!(error.kind, FfmpegErrorKind::InputCorrupted);
}

#[test]
fn disk_full() {
    let error = FfmpegError::parse("No space left on device");
    assert_eq!(error.kind, FfmpegErrorKind::DiskFull);
    assert_eq!(error.user_message, "ディスク容量が不足しています");
}

#[test]
fn output_cannot_be_opened() {
    let error = FfmpegError::parse("Cannot open output file");
    assert_eq!(error.kind, FfmpegErrorKind::OutputWriteError);
}

#[test]
fn out_of_memory() {
    let error = FfmpegError::parse("Cannot allocate memory");
    assert_eq!(error.kind, FfmpegErrorKind::OutOfMemory);
}

#[test]
fn unrecognized_option() {
    let error = FfmpegError::parse("Unrecognized option 'foo'.");
    assert_eq!(error.kind, FfmpegErrorKind::InvalidCodecOption("foo".to_string()));
    assert_eq!(error.user_message, "コーデックオプション「foo」が無効です");
}

#[test]
fn unknown_failure_keeps_last_error_line() {
    let error = FfmpegError::parse("Something went wrong\nConversion failed!\nbye");
    assert_eq!(error.kind, FfmpegErrorKind::Unknown("Conversion failed!".to_string()));
    assert_eq!(error.user_message, "変換エラー: Conversion failed!");
    assert_eq!(error.suggestion, None);
}

#[test]
fn unknown_failure_without_error_line() {
    let error = FfmpegError::parse("hello");
    assert_eq!(error.kind, FfmpegErrorKind::Unknown("変換中にエラーが発生しました".to_string()));
}

#[test]
fn long_unknown_line_is_truncated() {
    let line = format!("error {}", "x".repeat(200));
    let error = FfmpegError::parse(&line);
    let expected: String = line.chars().take(100).collect();
    assert_eq!(error.user_message, format!("変換エラー: {}...", expected));
}

#[test]
fn parse_lowered_uses_the_given_lower_case_text() {
    let error = FfmpegError::parse_lowered("whatever", "permission denied");
    assert_eq!(error.kind, FfmpegErrorKind::PermissionDenied);
    assert_eq!(error.raw_message, "whatever");
}

#[test]
fn format_user_message_appends_suggestion() {
    let error = FfmpegError::parse("No such file or directory");
    assert_eq!(
        error.format_user_message(),
        "入力ファイルが見つかりません\n\n💡 ファイルが移動または削除されていないか確認してください"
    );
    let unknown = FfmpegError::parse("hello");
    assert_eq!(unknown.format_user_message(), "変換エラー: 変換中にエラーが発生しました");
}

#[test]
fn vendor_signature_wins_over_missing_encoder() {
    let error = FfmpegError::parse("No NVENC capable devices found\nUnknown encoder 'h264_nvenc'");
    assert_eq!(error.kind, FfmpegErrorKind::HwAccelNotAvailable("NVIDIA NVENC".to_string()));
    let qsv = FfmpegError::parse("Unknown encoder 'h264_qsv'\nh264_qsv: device creation failed");
    assert_eq!(qsv.kind, FfmpegErrorKind::HwAccelNotAvailable("Intel QSV".to_string()));
}

#[test]
fn generic_hardware_failure_wins_over_missing_encoder() {
    let error = FfmpegError::parse("Encoder vaapi_thing not found");
    assert_eq!(error.kind, FfmpegErrorKind::HwAccelNotAvailable("VAAPI".to_string()));
}
