use shortvid::synth::VideoGenerator;
use shortvid::validation::{ProbeReport, VideoValidator};
use shortvid::video::{VideoSpec, VideoTemplate};

#[test]
fn test_video_generator_creation() {
    let generator = VideoGenerator::new("output".to_string(), "temp".to_string());
    assert_eq!(generator.output_dir, "output");
    assert_eq!(generator.temp_dir, "temp");
}

#[test]
fn test_simple_text_video_generation() {
    let generator = VideoGenerator::new("output".to_string(), "temp".to_string());

    let spec = VideoSpec {
        title: "Test Video".to_string(),
        template: VideoTemplate::SimpleText,
        duration_seconds: 5,
        background_color: "#1a1a1a".to_string(),
        text_color: "#ffffff".to_string(),
        font_size: 48,
        audio_track: None,
    };

    let result = generator.generate_video(&spec);
    assert!(result.is_ok());

    let plan = result.unwrap();
    assert!(plan.output_path.ends_with(".mp4"));
    assert_eq!(plan.output_path, "output/TestVideo.mp4");
    assert_eq!(plan.total_frames, 150);
    assert_eq!(plan.overlay.background, (0x1a, 0x1a, 0x1a));
    assert_eq!(plan.overlay.text_color, (255, 255, 255));
}

#[test]
fn test_video_validation() {
    let generator = VideoGenerator::new("output".to_string(), "temp".to_string());

    let spec = VideoSpec {
        title: "Validation Test".to_string(),
        template: VideoTemplate::SimpleText,
        duration_seconds: 15,
        background_color: "#000000".to_string(),
        text_color: "#ffffff".to_string(),
        font_size: 32,
        audio_track: None,
    };

    let plan = generator.generate_video(&spec).unwrap();
    assert_eq!(plan.output_path, "output/ValidationTest.mp4");

    // A faithful encode of that plan carries 450 frame ticks in the
    // encoder's 1/30 s time unit; validating such a container:
    let probe = ProbeReport {
        width: 1080,
        height: 1920,
        duration_ticks: plan.total_frames as i64,
        time_base_num: 1,
        time_base_den: 30,
        file_size: 2_000_000,
        has_audio: false,
    };
    let validation = VideoValidator::assess(Some(&probe)).unwrap();

    assert!(validation.correct_dimensions);
    assert!(validation.duration_in_range);
    assert!(validation.file_size_under_limit);
    assert!(validation.is_playable);
    // No audio track was requested, so none is carried.
    assert!(!validation.has_audio);
}
