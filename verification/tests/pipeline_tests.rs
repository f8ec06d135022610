use shortvid::encoder::{fixed_profile, EncoderPhase, EncoderSession};
use shortvid::error::VideoError;
use shortvid::synth::{sanitize_title, VideoGenerator};
use shortvid::validation::{ProbeReport, VideoValidation, VideoValidator};
use shortvid::video::{VideoSpec, VideoTemplate};

fn simple_spec(title: &str, duration: u32) -> VideoSpec {
    VideoSpec {
        title: title.to_string(),
        template: VideoTemplate::SimpleText,
        duration_seconds: duration,
        background_color: "#000000".to_string(),
        text_color: "#ffffff".to_string(),
        font_size: 48,
        audio_track: None,
    }
}

fn probe_for(duration_seconds: i64) -> ProbeReport {
    ProbeReport {
        width: 1080,
        height: 1920,
        duration_ticks: duration_seconds * 30,
        time_base_num: 1,
        time_base_den: 30,
        file_size: 1_000_000,
        has_audio: false,
    }
}

#[test]
fn sanitize_keeps_only_safe_characters() {
    assert_eq!(sanitize_title("Test Video"), "TestVideo");
    assert_eq!(sanitize_title("a-b_c!?.d e"), "a-b_cde");
    assert_eq!(sanitize_title("Validation Test"), "ValidationTest");
    assert_eq!(sanitize_title(""), "");
    assert_eq!(sanitize_title("  !!  "), "");
}

#[test]
fn output_path_is_sanitized_title_under_output_dir() {
    let g = VideoGenerator::new("output".to_string(), "temp".to_string());
    assert_eq!(g.output_path("Test Video"), "output/TestVideo.mp4");
    assert_eq!(g.output_path("A"), "output/A.mp4");
}

#[test]
fn simple_text_spec_plans_fully() {
    // Title "A", black background, white text, font 48, ten seconds.
    let g = VideoGenerator::new("output".to_string(), "temp".to_string());
    let spec = simple_spec("A", 10);
    let plan = g.generate_video(&spec).unwrap();
    assert_eq!(plan.output_path, "output/A.mp4");
    assert_eq!(plan.total_frames, 300);
    assert_eq!(plan.audio_track, None);
    assert_eq!(plan.overlay.background, (0, 0, 0));
    assert_eq!(plan.overlay.text_color, (255, 255, 255));
    assert_eq!(plan.overlay.font_size, 48);
    // Estimated width: 1 byte * 48 px * 0.6 = 28.8 px; x = (1080 - 28.8) / 2.
    assert_eq!(plan.overlay.text_x, 525);
    assert_eq!(plan.overlay.text_y, 936);
    assert_eq!(plan.overlay.title, "A");

    // The produced container, read back, validates fully.
    let validation = VideoValidator::assess(Some(&probe_for(10))).unwrap();
    assert!(validation.correct_dimensions);
    assert!(validation.duration_in_range);
    assert!(validation.file_size_under_limit);
    assert!(!validation.has_audio);
    assert!(validation.is_playable);
    assert!(validation.is_valid());
    assert!(validation.is_production_ready(10));
}

#[test]
fn title_card_template_is_not_implemented() {
    let g = VideoGenerator::new("output".to_string(), "temp".to_string());
    let mut spec = simple_spec("A", 10);
    spec.template = VideoTemplate::TitleCard;
    match g.generate_video(&spec) {
        Err(VideoError::TemplateNotImplemented(n)) => assert_eq!(n, "TitleCard"),
        other => panic!("expected TemplateNotImplemented, got {:?}", other),
    }
}

#[test]
fn slideshow_template_is_not_implemented() {
    let g = VideoGenerator::new("output".to_string(), "temp".to_string());
    let mut spec = simple_spec("A", 10);
    spec.template = VideoTemplate::Slideshow { slides: vec!["one".to_string()] };
    match g.generate_video(&spec) {
        Err(VideoError::TemplateNotImplemented(n)) => assert_eq!(n, "Slideshow"),
        other => panic!("expected TemplateNotImplemented, got {:?}", other),
    }
}

#[test]
fn malformed_colors_fail_background_first() {
    let g = VideoGenerator::new("output".to_string(), "temp".to_string());
    let mut spec = simple_spec("A", 10);
    spec.background_color = "#12345".to_string();
    spec.text_color = "bogus!".to_string();
    match g.generate_video(&spec) {
        Err(VideoError::InvalidColorFormat(s)) => assert_eq!(s, "#12345"),
        other => panic!("expected InvalidColorFormat, got {:?}", other),
    }
    spec.background_color = "#123456".to_string();
    match g.generate_video(&spec) {
        Err(VideoError::InvalidColorFormat(s)) => assert_eq!(s, "bogus!"),
        other => panic!("expected InvalidColorFormat, got {:?}", other),
    }
}

#[test]
fn audio_request_is_carried_through_the_plan() {
    let g = VideoGenerator::new("output".to_string(), "temp".to_string());
    let mut spec = simple_spec("With Audio", 15);
    spec.audio_track = Some("test_tone_15s.wav".to_string());
    let plan = g.generate_video(&spec).unwrap();
    assert_eq!(plan.audio_track.as_deref(), Some("test_tone_15s.wav"));

    let mut probe = probe_for(15);
    probe.has_audio = true;
    let v = VideoValidator::assess(Some(&probe)).unwrap();
    assert!(v.has_audio);
    assert!(v.is_valid());
}

#[test]
fn audio_flag_never_gates_validity() {
    let with_audio = VideoValidation {
        correct_dimensions: true,
        duration_in_range: true,
        file_size_under_limit: true,
        has_audio: true,
        is_playable: true,
    };
    let mut without_audio = with_audio;
    without_audio.has_audio = false;
    assert_eq!(with_audio.is_valid(), without_audio.is_valid());
    assert!(without_audio.is_valid());
}

#[test]
fn validation_is_repeatable_across_probes() {
    // Two reads of the same output may differ trivially in byte size; the
    // verdicts that gate validity agree.
    let first = probe_for(12);
    let mut second = probe_for(12);
    second.file_size = first.file_size + 4096;
    second.has_audio = true;
    let v1 = VideoValidator::assess(Some(&first)).unwrap();
    let v2 = VideoValidator::assess(Some(&second)).unwrap();
    assert_eq!(v1.correct_dimensions, v2.correct_dimensions);
    assert_eq!(v1.duration_in_range, v2.duration_in_range);
    assert_eq!(v1.file_size_under_limit, v2.file_size_under_limit);
    assert_eq!(v1.is_valid(), v2.is_valid());
}

#[test]
fn duration_bounds_are_inclusive() {
    assert!(VideoValidator::assess(Some(&probe_for(10))).unwrap().duration_in_range);
    assert!(VideoValidator::assess(Some(&probe_for(60))).unwrap().duration_in_range);
    assert!(!VideoValidator::assess(Some(&probe_for(9))).unwrap().duration_in_range);
    assert!(!VideoValidator::assess(Some(&probe_for(61))).unwrap().duration_in_range);
}

#[test]
fn duration_uses_the_stream_time_base() {
    let mut probe = probe_for(0);
    probe.duration_ticks = 15000;
    probe.time_base_num = 1;
    probe.time_base_den = 1000;
    let v = VideoValidator::assess(Some(&probe)).unwrap();
    assert!(v.duration_in_range);
    probe.duration_ticks = 9999;
    let v = VideoValidator::assess(Some(&probe)).unwrap();
    assert!(!v.duration_in_range);
}

#[test]
fn file_size_limit_is_strict() {
    let mut probe = probe_for(20);
    probe.file_size = 50 * 1024 * 1024;
    assert!(!VideoValidator::assess(Some(&probe)).unwrap().file_size_under_limit);
    probe.file_size = 50 * 1024 * 1024 - 1;
    assert!(VideoValidator::assess(Some(&probe)).unwrap().file_size_under_limit);
}

#[test]
fn missing_video_stream_is_fatal() {
    match VideoValidator::assess(None) {
        Err(e) => {
            assert!(matches!(e, VideoError::NoVideoStream));
            assert_eq!(e.category(), "no video stream");
        },
        other => panic!("expected NoVideoStream, got {:?}", other),
    }
}

#[test]
fn production_readiness_requires_requested_duration_in_range() {
    let v = VideoValidator::assess(Some(&probe_for(30))).unwrap();
    assert!(v.is_production_ready(30));
    assert!(!v.is_production_ready(9));
    assert!(!v.is_production_ready(61));
}

#[test]
fn summary_reports_every_fact() {
    let good = VideoValidator::assess(Some(&probe_for(30))).unwrap();
    assert_eq!(
        good.get_summary(),
        "Dimensions: \u{2705}, Duration: \u{2705}, Size: \u{2705}, Audio: \u{2796}, Playable: \u{2705}"
    );
    let bad = VideoValidation {
        correct_dimensions: false,
        duration_in_range: false,
        file_size_under_limit: false,
        has_audio: true,
        is_playable: false,
    };
    assert_eq!(
        bad.get_summary(),
        "Dimensions: \u{274c}, Duration: \u{274c}, Size: \u{274c}, Audio: \u{2705}, Playable: \u{274c}"
    );
}

#[test]
fn encoder_session_walks_its_lifecycle_in_order() {
    let mut s = EncoderSession::configure(2);
    assert_eq!(s.phase, EncoderPhase::Configured);
    assert_eq!(s.total_frames, 60);
    s.header_written();
    assert_eq!(s.phase, EncoderPhase::HeaderWritten);
    let mut expected: i64 = 0;
    while let Some(pts) = s.next_pts() {
        assert_eq!(pts, expected);
        s.frame_submitted();
        expected += 1;
    }
    assert_eq!(expected, 60);
    s.flushed();
    assert_eq!(s.phase, EncoderPhase::Flushed);
    s.trailer_written();
    assert_eq!(s.phase, EncoderPhase::Finalized);
}

#[test]
fn fixed_profile_matches_the_published_parameters() {
    let p = fixed_profile();
    assert_eq!((p.width, p.height), (1080, 1920));
    assert_eq!((p.fps, p.time_base_num, p.time_base_den), (30, 1, 30));
    assert_eq!((p.bit_rate, p.max_bit_rate), (2_000_000, 2_500_000));
    assert_eq!((p.gop, p.qmin, p.qmax), (30, 10, 51));
}
