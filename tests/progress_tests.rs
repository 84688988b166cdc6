use kamaitachi::progress::{
    format_duration, format_size, parse_centi, ContentType, FfmpegProgressInfo, LineAction,
    ProgressFilter, TranscodeProgress,
};

#[test]
fn protocol_lines_fill_a_record() {
    let mut info = FfmpegProgressInfo::new();
    assert!(!info.parse_progress_line("frame=120"));
    assert!(!info.parse_progress_line("fps=29.97"));
    assert!(!info.parse_progress_line("out_time_us=4000000"));
    assert!(!info.parse_progress_line("total_size=1048576"));
    assert!(!info.parse_progress_line("garbage without separator"));
    assert!(!info.parse_progress_line("frame=abc"));
    assert!(info.is_valid());
    assert!(info.parse_progress_line("progress=continue"));
    assert_eq!(info.frame, 120);
    assert_eq!(info.fps_centi, 2997);
    assert_eq!(info.out_time_us, Some(4_000_000));
    assert_eq!(info.total_size, Some(1_048_576));
    assert!(!info.finished);
    let next = info.next_record();
    assert_eq!(next.frame, 120);
    assert_eq!(next.fps_centi, 2997);
    assert_eq!(next.out_time_us, None);
    let mut last = next;
    assert!(last.parse_progress_line("progress=end"));
    assert!(last.finished);
}

#[test]
fn frame_rates_in_hundredths() {
    assert_eq!(parse_centi("30"), Some(3000));
    assert_eq!(parse_centi("29.97"), Some(2997));
    assert_eq!(parse_centi("59.9"), Some(5990));
    assert_eq!(parse_centi("23.976"), Some(2397));
    assert_eq!(parse_centi("1."), Some(100));
    assert_eq!(parse_centi("x"), None);
    assert_eq!(parse_centi("1.2.3"), None);
}

#[test]
fn fraction_is_clamped_and_never_decreases() {
    let mut f = ProgressFilter::new(None, Some(10_000_000));
    let mut info = FfmpegProgressInfo::new();
    let mut last = 0;
    for (t, expect) in [(2_500_000u64, 2500u64), (1_000_000, 2500), (12_000_000, 10000), (5_000_000, 10000)] {
        assert_eq!(f.on_line(&mut info, &format!("out_time_us={}", t), false), LineAction::Continue);
        assert_eq!(f.on_line(&mut info, "progress=continue", false), LineAction::Publish);
        let p = f.get_progress(1_000_000);
        assert_eq!(p.progress_permyriad, expect);
        assert!(p.progress_permyriad >= last && p.progress_permyriad <= 10000);
        last = p.progress_permyriad;
    }
}

#[test]
fn remaining_time_and_estimated_size() {
    let mut f = ProgressFilter::new(None, Some(100_000_000));
    assert_eq!(f.get_progress(5_000_000).remaining_us, None);
    f.set_current_size(1_000_000);
    let mut info = FfmpegProgressInfo::new();
    f.on_line(&mut info, "out_time_us=25000000", false);
    f.on_line(&mut info, "progress=continue", false);
    let p = f.get_progress(10_000_000);
    assert_eq!(p.progress_permyriad, 2500);
    assert_eq!(p.remaining_us, Some(30_000_000));
    assert_eq!(p.estimated_size, Some(4_000_000));
    assert_eq!(p.total_time_us, Some(100_000_000));
    f.on_line(&mut info, "out_time_us=100000000", false);
    f.on_line(&mut info, "progress=end", false);
    let done = f.get_progress(40_000_000);
    assert_eq!(done.progress_permyriad, 10000);
    assert_eq!(done.remaining_us, None);
}

#[test]
fn small_fraction_has_no_size_estimate() {
    let mut f = ProgressFilter::new(Some(1000), None);
    f.set_current_size(500);
    for _ in 0..40 {
        f.on_frame(None);
    }
    let p = f.get_progress(2_000_000);
    assert_eq!(p.progress_permyriad, 400);
    assert_eq!(p.estimated_size, None);
    assert_eq!(p.fps_centi, 2000);
    assert_eq!(p.total_frames, Some(1000));
    assert_eq!(p.frames_processed, 40);
}

#[test]
fn cancellation_stops_reading() {
    let mut f = ProgressFilter::new(None, Some(1000));
    let mut info = FfmpegProgressInfo::new();
    assert_eq!(f.on_line(&mut info, "frame=1", false), LineAction::Continue);
    assert_eq!(f.on_line(&mut info, "frame=2", true), LineAction::Stop);
    assert!(f.is_cancelled());
    assert_eq!(info.frame, 1);
    assert_eq!(f.on_line(&mut info, "progress=continue", false), LineAction::Stop);
    let mut g = ProgressFilter::new(None, None);
    g.cancel();
    assert!(g.cancel_flag());
}

#[test]
fn unknown_totals_give_zero_fraction() {
    let mut f = ProgressFilter::new(None, None);
    f.on_frame(Some(5));
    f.set_input_size(10);
    let p = f.get_progress(0);
    assert_eq!(p.progress_permyriad, 0);
    assert_eq!(p.fps_centi, 0);
    assert_eq!(p.remaining_us, None);
    assert_eq!(p.current_time_us, 5);
    assert_eq!(TranscodeProgress::default().progress_permyriad, 0);
    f.set_total_duration(10);
    assert_eq!(f.get_progress(0).progress_permyriad, 5000);
    f.set_total_frames(4);
    assert_eq!(f.get_progress(0).progress_permyriad, 5000);
}

#[test]
fn durations_are_clock_readings() {
    assert_eq!(format_duration(0), "00:00");
    assert_eq!(format_duration(59), "00:59");
    assert_eq!(format_duration(61), "01:01");
    assert_eq!(format_duration(3599), "59:59");
    assert_eq!(format_duration(3600), "1:00:00");
    assert_eq!(format_duration(37230), "10:20:30");
}

#[test]
fn sizes_in_binary_units() {
    assert_eq!(format_size(0), "0 B");
    assert_eq!(format_size(1023), "1023 B");
    assert_eq!(format_size(1024), "1.00 KB");
    assert_eq!(format_size(1536), "1.50 KB");
    assert_eq!(format_size(1_048_576), "1.00 MB");
    assert_eq!(format_size(1_500_000), "1.43 MB");
    assert_eq!(format_size(5 * 1024 * 1024 * 1024 + 1024 * 1024 * 1024 / 4), "5.25 GB");
    assert_eq!(format_size(u64::MAX), format!("{:.2} GB", u64::MAX as f64 / (1u64 << 30) as f64));
}

#[test]
fn content_types() {
    assert_eq!(ContentType::all().len(), 5);
    assert_eq!(ContentType::Anime.display_name(), "アニメ");
}
