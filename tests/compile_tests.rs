use kamaitachi::hwaccel::HwAccelType;
use kamaitachi::job::{JobState, TranscodeJob};
use kamaitachi::preset::{
    AudioCodec, ContainerFormat, RateControlMode, TranscodeSettings, VideoCodec, VideoPreset,
    VideoResolution, X264Tune,
};

fn job_with(settings: TranscodeSettings) -> TranscodeJob {
    TranscodeJob::new("in.mp4".to_string(), "out/in_transcoded.mp4".to_string(), settings)
}

fn count(args: &[String], flag: &str) -> usize {
    args.iter().filter(|a| a.as_str() == flag).count()
}

#[test]
fn default_settings_compile_for_x264() {
    let job = job_with(TranscodeSettings::default());
    assert_eq!(job.state, JobState::Pending);
    let args = job.build_ffmpeg_args();
    let expected: Vec<&str> = vec![
        "-i", "in.mp4", "-c:v", "libx264", "-profile:v", "high", "-crf", "23", "-preset", "medium",
        "-bf", "3", "-refs", "4", "-aq-mode", "1", "-aq-strength", "0.8", "-rc-lookahead", "20",
        "-g", "250", "-c:a", "aac", "-b:a", "192k", "-progress", "pipe:1", "-stats_period", "0.5",
        "-y", "out/in_transcoded.mp4",
    ];
    assert_eq!(args, expected);
}

#[test]
fn nvenc_hevc_with_scale_filter() {
    let mut s = TranscodeSettings::default();
    s.video_codec = VideoCodec::H265;
    s.hwaccel = HwAccelType::Nvenc;
    s.resolution = VideoResolution::Hd720;
    let job = job_with(s);
    let args = job.compile_args("hevc_nvenc", HwAccelType::Nvenc);
    let expected: Vec<&str> = vec![
        "-hwaccel", "cuda", "-i", "in.mp4", "-c:v", "hevc_nvenc", "-vf", "scale=1280:720", "-tune",
        "hq", "-rc", "vbr", "-cq", "23", "-preset", "p4", "-multipass", "qres", "-bf", "3",
        "-b_ref_mode", "each", "-rc-lookahead", "20", "-spatial-aq", "1", "-aq-strength", "8", "-g",
        "250", "-c:a", "aac", "-b:a", "192k", "-progress", "pipe:1", "-stats_period", "0.5", "-y",
        "out/in_transcoded.mp4",
    ];
    assert_eq!(args, expected);
}

#[test]
fn x265_parameters_are_joined() {
    let mut s = TranscodeSettings::default();
    s.video_codec = VideoCodec::H265;
    s.hwaccel = HwAccelType::Software;
    s.x264_tune = X264Tune::Film;
    let args = job_with(s).build_ffmpeg_args();
    let i = args.iter().position(|a| a == "-x265-params").unwrap();
    assert_eq!(args[i + 1], "bframes=3:ref=4:aq-mode=1:aq-strength=0.8:rc-lookahead=20");
    assert!(!args.iter().any(|a| a == "-tune"));
}

#[test]
fn qsv_cbr_and_copy_audio() {
    let mut s = TranscodeSettings::default();
    s.hwaccel = HwAccelType::Qsv;
    s.rate_control = RateControlMode::Cbr;
    s.audio_codec = AudioCodec::Copy;
    s.preset = VideoPreset::Slow;
    let args = job_with(s).build_ffmpeg_args();
    let expected: Vec<&str> = vec![
        "-hwaccel", "qsv", "-i", "in.mp4", "-c:v", "h264_qsv", "-b:v", "5000k", "-maxrate", "5000k",
        "-preset", "slower", "-look_ahead", "1", "-look_ahead_depth", "40", "-adaptive_i", "1",
        "-adaptive_b", "1", "-bf", "3", "-refs", "4", "-g", "250", "-c:a", "copy", "-progress",
        "pipe:1", "-stats_period", "0.5", "-y", "out/in_transcoded.mp4",
    ];
    assert_eq!(args, expected);
}

#[test]
fn amf_crf_quantisers() {
    let mut s = TranscodeSettings::default();
    s.hwaccel = HwAccelType::Amf;
    s.crf = 254;
    s.bframes = 0;
    s.gop_size = 0;
    s.audio_codec = AudioCodec::Flac;
    let args = job_with(s).build_ffmpeg_args();
    let expected: Vec<&str> = vec![
        "-hwaccel", "d3d11va", "-i", "in.mp4", "-c:v", "h264_amf", "-usage", "transcoding",
        "-quality", "balanced", "-rc", "cqp", "-qp_i", "254", "-qp_p", "254", "-qp_b", "256",
        "-c:a", "flac", "-progress", "pipe:1", "-stats_period", "0.5", "-y", "out/in_transcoded.mp4",
    ];
    assert_eq!(args, expected);
}

#[test]
fn vp9_vbr_and_custom_scale() {
    let mut s = TranscodeSettings::default();
    s.video_codec = VideoCodec::Vp9;
    s.rate_control = RateControlMode::Vbr;
    s.resolution = VideoResolution::Custom(640, 360);
    s.audio_codec = AudioCodec::Mp3;
    s.audio_bitrate = 320;
    let args = job_with(s).build_ffmpeg_args();
    let expected: Vec<&str> = vec![
        "-i", "in.mp4", "-c:v", "libvpx-vp9", "-vf", "scale=640:360", "-b:v", "5000k", "-maxrate",
        "10000k", "-cpu-used", "4", "-deadline", "good", "-row-mt", "1", "-tile-columns", "2",
        "-tile-rows", "1", "-frame-parallel", "1", "-auto-alt-ref", "1", "-lag-in-frames", "25",
        "-g", "250", "-c:a", "libmp3lame", "-b:a", "320k", "-progress", "pipe:1", "-stats_period",
        "0.5", "-y", "out/in_transcoded.mp4",
    ];
    assert_eq!(args, expected);
}

#[test]
fn svtav1_film_grain_and_libaom_tiles() {
    let mut s = TranscodeSettings::default();
    s.video_codec = VideoCodec::Av1;
    s.svtav1_film_grain = 8;
    s.svtav1_film_grain_denoise = true;
    s.preset = VideoPreset::Veryslow;
    let job = job_with(s);
    let svt = job.build_ffmpeg_args();
    let expected: Vec<&str> = vec![
        "-i", "in.mp4", "-c:v", "libsvtav1", "-crf", "23", "-preset", "2", "-svtav1-params",
        "film-grain=8:film-grain-denoise=1", "-tile_columns", "2", "-tile_rows", "2", "-g", "250",
        "-c:a", "aac", "-b:a", "192k", "-progress", "pipe:1", "-stats_period", "0.5", "-y",
        "out/in_transcoded.mp4",
    ];
    assert_eq!(svt, expected);
    let aom = job.compile_args("libaom-av1", HwAccelType::Software);
    let i = aom.iter().position(|a| a == "-tiles").unwrap();
    assert_eq!(aom[i + 1], "2x2");
    assert_eq!(aom[i - 3], "1");
}

#[test]
fn unknown_encoder_gets_generic_options() {
    let mut s = TranscodeSettings::default();
    s.rate_control = RateControlMode::Cqp;
    s.gop_size = 0;
    let args = job_with(s).compile_args("mpeg4", HwAccelType::Nvenc);
    let expected: Vec<&str> = vec![
        "-hwaccel", "cuda", "-i", "in.mp4", "-c:v", "mpeg4", "-qp", "23", "-preset", "medium",
        "-c:a", "aac", "-b:a", "192k", "-progress", "pipe:1", "-stats_period", "0.5", "-y",
        "out/in_transcoded.mp4",
    ];
    assert_eq!(args, expected);
}

#[test]
fn every_combination_has_one_codec_flag_each() {
    let codecs = [VideoCodec::H264, VideoCodec::H265, VideoCodec::Vp9, VideoCodec::Av1];
    for codec in codecs {
        for hw in HwAccelType::all() {
            for rc in RateControlMode::all() {
                for audio in AudioCodec::all() {
                    let mut s = TranscodeSettings::default();
                    s.video_codec = codec;
                    s.hwaccel = *hw;
                    s.rate_control = *rc;
                    s.audio_codec = *audio;
                    let args = job_with(s).build_ffmpeg_args();
                    assert!(!args.is_empty());
                    assert_eq!(count(&args, "-c:v"), 1);
                    assert_eq!(count(&args, "-c:a"), 1);
                }
            }
        }
    }
}

#[test]
fn original_resolution_never_scales() {
    for res in VideoResolution::all() {
        let mut s = TranscodeSettings::default();
        s.resolution = *res;
        let args = job_with(s).build_ffmpeg_args();
        match res {
            VideoResolution::Original => {
                assert_eq!(count(&args, "-vf"), 0);
                assert!(args.iter().all(|a| !a.starts_with("scale=")));
            }
            other => {
                let (w, h) = other.dimensions();
                assert_eq!(count(&args, "-vf"), 1);
                assert_eq!(args.iter().filter(|a| a.starts_with("scale=")).count(), 1);
                let i = args.iter().position(|a| a == "-vf").unwrap();
                assert_eq!(args[i + 1], format!("scale={}:{}", w, h));
            }
        }
    }
}

#[test]
fn codec_crf_and_container_can_be_read_back() {
    let mut s = TranscodeSettings::default();
    s.video_codec = VideoCodec::H265;
    s.crf = 31;
    s.container = ContainerFormat::Mkv;
    let job = TranscodeJob::new("a.mov".to_string(), "dir/a_x.mkv".to_string(), s);
    let args = job.build_ffmpeg_args();
    let enc = &args[args.iter().position(|a| a == "-c:v").unwrap() + 1];
    assert_eq!(enc, "libx265");
    let crf = &args[args.iter().position(|a| a == "-crf").unwrap() + 1];
    assert_eq!(crf.parse::<u8>().unwrap(), 31);
    assert!(args.last().unwrap().ends_with(".mkv"));
}

#[test]
fn fallback_applies_when_preferred_encoder_is_unusable() {
    let mut s = TranscodeSettings::default();
    s.hwaccel = HwAccelType::Nvenc;
    let job = job_with(s);
    let usable = vec!["libx264".to_string()];
    let args = job.build_ffmpeg_args_with_path(Some(&usable));
    assert_eq!(args[0], "-i");
    assert_eq!(args[3], "libx264");
    let with_gpu = vec!["h264_nvenc".to_string(), "libx264".to_string()];
    let args = job.build_ffmpeg_args_with_path(Some(&with_gpu));
    assert_eq!(&args[..2], &["-hwaccel".to_string(), "cuda".to_string()]);
    assert_eq!(args[5], "h264_nvenc");
}

#[test]
fn output_path_is_dir_stem_suffix_extension() {
    let mut s = TranscodeSettings::default();
    let p = TranscodeJob::generate_output_path("/videos/clip.avi", "/out", "_small", &s);
    assert_eq!(p, std::path::Path::new("/out").join("clip_small.mp4").to_string_lossy());
    s.container = ContainerFormat::Mkv;
    let p = TranscodeJob::generate_output_path("/", "/out", "_x", &s);
    assert_eq!(p, std::path::Path::new("/out").join("output_x.mkv").to_string_lossy());
    assert_eq!(TranscodeJob::output_file_name(Some("a.b"), "", &s), "a.b.mkv");
}

#[test]
fn cancel_marks_the_job() {
    let mut job = job_with(TranscodeSettings::default());
    assert!(!job.is_cancelled());
    job.cancel();
    assert!(job.is_cancelled());
}

#[test]
fn option_tables() {
    assert_eq!(VideoResolution::Custom(1, 2).display_name(), "1x2");
    assert_eq!(VideoResolution::Fhd1080.dimensions(), (1920, 1080));
    assert_eq!(VideoCodec::Vp9.encoder_name(&HwAccelType::Nvenc), "libvpx-vp9");
    assert_eq!(VideoCodec::Av1.encoder_name(&HwAccelType::Auto), "libsvtav1");
    assert_eq!(ContainerFormat::Mkv.extension(), "mkv");
    assert_eq!(kamaitachi::preset::audio_bitrate_options()[1], (192, "192 kbps"));
    assert_eq!(X264Tune::Untuned.ffmpeg_value(), None);
    assert_eq!(X264Tune::all().len(), 9);
    assert_eq!(VideoPreset::Fast.ffmpeg_name(), "fast");
}
