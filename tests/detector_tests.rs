use kamaitachi::detector::{DetectError, FfmpegDetector, FfmpegInfo};
use kamaitachi::downloader::FfmpegDownloader;
use kamaitachi::probe::{parse_frame_rate, parse_seconds_us, FrameRate};

const BANNER: &str = "ffmpeg version 7.1.2-full_build Copyright (c) 2000-2024\nconfiguration: --enable-gpl --enable-version3\n";

#[test]
fn test_detect_ffmpeg() {
    if let Ok(info) = FfmpegDetector::parse_ffmpeg_output(BANNER, "ffmpeg".to_string(), None) {
        println!("FFmpeg found: {:?}", info);
        assert!(!info.version.is_empty());
    }
}

#[test]
fn banner_gives_version_numbers() {
    let info = FfmpegDetector::parse_ffmpeg_output(BANNER, "/bin/ffmpeg".to_string(), Some("/bin/ffprobe".to_string())).unwrap();
    assert_eq!(info.version, "7.1.2-full_build");
    assert_eq!(info.major_version, 7);
    assert_eq!(info.minor_version, 1);
    assert!(info.is_gpl);
    assert_eq!(info.ffprobe_path.as_deref(), Some("/bin/ffprobe"));
    assert!(FfmpegDetector::check_version_requirement(&info, 7));
    assert!(!FfmpegDetector::check_version_requirement(&info, 8));
}

#[test]
fn banner_without_numbers() {
    let info = FfmpegDetector::parse_ffmpeg_output("ffmpeg version N-1234-gabc", "f".to_string(), None).unwrap();
    assert_eq!(info.version, "unknown");
    assert_eq!(info.major_version, 0);
    assert_eq!(info.minor_version, 0);
    assert!(!info.is_gpl);
    let single = FfmpegDetector::parse_ffmpeg_output("ffmpeg version 6 x", "f".to_string(), None).unwrap();
    assert_eq!(single.major_version, 6);
    assert_eq!(single.minor_version, 0);
}

#[test]
fn empty_banner_is_an_error() {
    assert_eq!(
        FfmpegDetector::parse_ffmpeg_output("", "f".to_string(), None).unwrap_err(),
        DetectError::EmptyOutput
    );
}

const REPORT: &str = r#"{
    "streams": [
        {
            "index": 0,
            "codec_name": "h264",
            "codec_type": "video",
            "width": 1920,
            "height": 1080,
            "r_frame_rate": "30000/1001",
            "bit_rate": "5000000"
        },
        {
            "index": 1,
            "codec_name": "aac",
            "codec_type": "audio",
            "bit_rate": "128000"
        }
    ],
    "format": {
        "duration": "10.000000",
        "bit_rate": "5200000"
    }
}"#;

#[test]
fn probe_report_is_read() {
    let r = FfmpegInfo::parse_probe_json(REPORT);
    assert_eq!(r.resolution, Some((1920, 1080)));
    assert_eq!(r.video_bitrate, Some(5_000_000));
    assert_eq!(r.audio_bitrate, Some(128_000));
    assert_eq!(r.overall_bitrate, Some(5_200_000));
    assert_eq!(r.fps, Some(FrameRate { num: 30000, den: 1001 }));
    assert_eq!(r.video_codec.as_deref(), Some("h264"));
    assert_eq!(r.audio_codec.as_deref(), Some("aac"));
    assert_eq!(r.duration_us, None);
}

#[test]
fn probe_estimates_missing_video_bitrate() {
    let json = "{\n\"streams\": [\n{\n\"codec_type\":\"audio\",\n\"bit_rate\": \"200000\"\n}\n],\n\"format\": {\n\"duration\": 12.5,\n\"bit_rate\": \"1200000\"\n}\n}";
    let r = FfmpegInfo::parse_probe_json(json);
    assert_eq!(r.duration_us, Some(12_500_000));
    assert_eq!(r.audio_bitrate, Some(200_000));
    assert_eq!(r.video_bitrate, Some(1_000_000));
    let only_overall = FfmpegInfo::parse_probe_json("\"format\": {\"bit_rate\": \"1000\"}");
    assert_eq!(only_overall.video_bitrate, Some(900));
    assert_eq!(FfmpegInfo::parse_probe_json("").video_bitrate, None);
}

#[test]
fn frame_rates_and_seconds() {
    assert_eq!(parse_frame_rate("25"), Some(FrameRate { num: 25, den: 1 }));
    assert_eq!(parse_frame_rate("25/0"), None);
    assert_eq!(parse_frame_rate("1/2/3"), None);
    assert_eq!(parse_seconds_us("3"), Some(3_000_000));
    assert_eq!(parse_seconds_us("0.1234567"), Some(123_456));
    assert_eq!(parse_seconds_us(".5"), Some(500_000));
    assert_eq!(parse_seconds_us("-1"), None);
}

#[test]
fn download_fraction_is_clamped() {
    assert_eq!(FfmpegDownloader::download_fraction(50, Some(200)), 2500);
    assert_eq!(FfmpegDownloader::download_fraction(300, Some(200)), 10000);
    assert_eq!(FfmpegDownloader::download_fraction(5, None), 0);
    assert_eq!(FfmpegDownloader::download_fraction(5, Some(0)), 0);
}

#[test]
fn default_preferences() {
    let s = kamaitachi::config::Settings::default();
    assert_eq!(s.window_width, Some(1200));
    assert!(s.dark_mode && !s.shutdown_on_complete);
}
