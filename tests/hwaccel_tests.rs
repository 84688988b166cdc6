use kamaitachi::hwaccel::{EncoderCheck, HwAccelDetector, HwAccelType};
use kamaitachi::preset::VideoCodec;

#[test]
fn test_detect_hwaccel() {
    let info = HwAccelDetector::detect(false, &Vec::new());
    println!("Available HW acceleration: {:?}", info.available);
    println!("Recommended: {:?}", info.recommended);
    assert!(!info.available.is_empty());
}

const LISTING: &str = "Encoders:\n V..... = Video\n ------\n V....D libx264              libx264 H.264\n V....D h264_nvenc           NVIDIA NVENC H.264 encoder\n V....D h264_qsv             H.264 QSV\n A....D aac                  AAC\n V....D libx264              duplicate line\n";

#[test]
fn detection_follows_priority() {
    let usable = vec!["libx264".to_string(), "h264_nvenc".to_string(), "h264_qsv".to_string()];
    let info = HwAccelDetector::detect(true, &usable);
    assert_eq!(info.available, vec![HwAccelType::Nvenc, HwAccelType::Qsv, HwAccelType::Software]);
    assert_eq!(info.recommended, HwAccelType::Nvenc);
    let no_driver = HwAccelDetector::detect(false, &usable);
    assert_eq!(no_driver.available, vec![HwAccelType::Qsv, HwAccelType::Software]);
    assert_eq!(no_driver.recommended, HwAccelType::Qsv);
    let amf_only = HwAccelDetector::detect(true, &vec!["h264_amf".to_string()]);
    assert_eq!(amf_only.available, vec![HwAccelType::Amf, HwAccelType::Software]);
    let nothing = HwAccelDetector::detect(true, &Vec::new());
    assert_eq!(nothing.available, vec![HwAccelType::Software]);
    assert_eq!(nothing.recommended, HwAccelType::Software);
}

#[test]
fn auto_resolves_to_recommended() {
    let usable = vec!["h264_qsv".to_string()];
    assert_eq!(HwAccelDetector::resolve_auto(HwAccelType::Auto, false, &usable), HwAccelType::Qsv);
    assert_eq!(HwAccelDetector::resolve_auto(HwAccelType::Amf, false, &Vec::new()), HwAccelType::Amf);
    assert_eq!(HwAccelDetector::resolve_auto(HwAccelType::Auto, false, &Vec::new()), HwAccelType::Software);
    assert_eq!(
        HwAccelDetector::detection_encoders(),
        vec!["h264_nvenc".to_string(), "h264_qsv".to_string(), "h264_amf".to_string()]
    );
}

#[test]
fn encoder_listing_is_parsed_once_per_name() {
    let encoders = HwAccelDetector::get_available_encoders(LISTING);
    assert_eq!(encoders, vec!["=".to_string(), "libx264".to_string(), "h264_nvenc".to_string(), "h264_qsv".to_string()]);
}

#[test]
fn resolution_prefers_then_falls_back() {
    let only_sw = vec!["libx264".to_string()];
    assert_eq!(
        HwAccelDetector::get_available_encoder(&VideoCodec::H264, &HwAccelType::Nvenc, &only_sw),
        ("libx264".to_string(), HwAccelType::Software)
    );
    let gpu = vec!["libx264".to_string(), "h264_nvenc".to_string()];
    assert_eq!(
        HwAccelDetector::get_available_encoder(&VideoCodec::H264, &HwAccelType::Nvenc, &gpu),
        ("h264_nvenc".to_string(), HwAccelType::Nvenc)
    );
    let aom = vec!["libaom-av1".to_string()];
    assert_eq!(
        HwAccelDetector::get_available_encoder(&VideoCodec::Av1, &HwAccelType::Qsv, &aom),
        ("libaom-av1".to_string(), HwAccelType::Software)
    );
    let none: Vec<String> = Vec::new();
    assert_eq!(
        HwAccelDetector::get_available_encoder(&VideoCodec::Av1, &HwAccelType::Amf, &none),
        ("libsvtav1".to_string(), HwAccelType::Software)
    );
}

#[test]
fn resolution_is_deterministic_for_the_same_facts() {
    let a = vec!["libx265".to_string(), "hevc_qsv".to_string()];
    let b = vec!["hevc_qsv".to_string(), "libx265".to_string(), "libx265".to_string()];
    for hw in HwAccelType::all() {
        assert_eq!(
            HwAccelDetector::get_available_encoder(&VideoCodec::H265, hw, &a),
            HwAccelDetector::get_available_encoder(&VideoCodec::H265, hw, &b)
        );
    }
}

#[test]
fn candidates_and_prechecks() {
    assert_eq!(
        HwAccelDetector::encoder_candidates(&VideoCodec::Av1, &HwAccelType::Nvenc),
        vec!["av1_nvenc".to_string(), "libsvtav1".to_string(), "libaom-av1".to_string()]
    );
    let listed = vec!["libx264".to_string(), "h264_nvenc".to_string()];
    assert_eq!(HwAccelDetector::precheck_encoder("libx264", &listed), EncoderCheck::Usable);
    assert_eq!(HwAccelDetector::precheck_encoder("h264_nvenc", &listed), EncoderCheck::NeedsTrial);
    assert_eq!(HwAccelDetector::precheck_encoder("libx265", &listed), EncoderCheck::NotListed);
    assert!(HwAccelDetector::is_software_encoder("libaom-av1"));
    assert!(!HwAccelDetector::is_software_encoder("h264_amf"));
    let trial = HwAccelDetector::trial_args("h264_qsv");
    assert_eq!(trial[5], "h264_qsv");
    assert_eq!(trial.len(), 11);
    assert_eq!(HwAccelType::Qsv.display_name(), "Intel QSV");
}
