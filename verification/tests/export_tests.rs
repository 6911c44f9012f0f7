use lumina_core::dispatch::workgroup_count;
use lumina_core::export::{
    check_frame_len, ffmpeg_command, frame_size, EncodeStep, EncodingProgress, FFmpegConfig,
    FrameSizeMismatch,
};

fn percentage(progress: &EncodingProgress) -> f32 {
    progress.current_frame as f32 / progress.total_frames as f32 * 100.0
}

#[test]
fn test_frame_size_calculation() {
    let config = FFmpegConfig::default();
    let expected = frame_size(config.width, config.height);
    assert_eq!(expected, 8294400);
}

#[test]
fn test_progress_tracking() {
    let mut progress = EncodingProgress::new(600);
    assert_eq!(percentage(&progress), 0.0);
    assert!(!progress.is_complete());

    progress.current_frame = 300;
    assert_eq!(percentage(&progress), 50.0);

    progress.current_frame = 600;
    assert!(progress.is_complete());
}

#[test]
fn progress_completes_after_every_frame_is_counted() {
    let mut progress = EncodingProgress::new(3);
    for _ in 0..2 {
        progress.update();
        assert!(!progress.is_complete());
    }
    progress.update();
    assert_eq!(progress.current_frame, 3);
    assert!(progress.is_complete());
    progress.update();
    assert!(progress.is_complete());
    assert!(EncodingProgress::new(0).is_complete());
}

#[test]
fn ffmpeg_default_config() {
    let config = FFmpegConfig::default();
    assert_eq!(config.output_path, "output.mp4");
    assert_eq!((config.width, config.height, config.fps, config.cq), (1920, 1080, 60, 22));
}

#[test]
fn ffmpeg_command_line_names_size_rate_quality_and_output() {
    let config = FFmpegConfig::default();
    assert_eq!(
        ffmpeg_command(&config),
        "ffmpeg -y -f rawvideo -pixel_format rgba -video_size 1920x1080 -framerate 60 -i - \
         -c:v h264_nvenc -preset p7 -tune hq -rc vbr -cq 22 -pix_fmt yuv420p -movflags +faststart output.mp4"
    );
    let config = FFmpegConfig { output_path: "rain.mp4".to_string(), width: 1080, height: 1920, fps: 24, cq: 0 };
    assert_eq!(
        ffmpeg_command(&config),
        "ffmpeg -y -f rawvideo -pixel_format rgba -video_size 1080x1920 -framerate 24 -i - \
         -c:v h264_nvenc -preset p7 -tune hq -rc vbr -cq 0 -pix_fmt yuv420p -movflags +faststart rain.mp4"
    );
}

#[test]
fn frame_length_is_checked() {
    assert_eq!(check_frame_len(16, 16), Ok(()));
    let err = check_frame_len(16, 12).unwrap_err();
    assert_eq!(err, FrameSizeMismatch { expected: 16, got: 12 });
    assert_eq!(err.message(), "Frame size mismatch: expected 16 bytes, got 12");
}

#[test]
fn frame_size_small() {
    assert_eq!(frame_size(2, 3), 24);
    assert_eq!(frame_size(0, 1080), 0);
}

#[test]
fn workgroups_cover_all_particles() {
    assert_eq!(workgroup_count(0), 0);
    assert_eq!(workgroup_count(1), 1);
    assert_eq!(workgroup_count(64), 1);
    assert_eq!(workgroup_count(65), 2);
    assert_eq!(workgroup_count(5000), 79);
}

#[test]
fn encoding_steps_cover_each_frame_once_then_finish() {
    let mut progress = EncodingProgress::new(121);
    let mut frames = Vec::new();
    let mut reports = Vec::new();
    loop {
        match progress.next_step() {
            EncodeStep::RenderFrame { frame, report_progress } => {
                frames.push(frame);
                if report_progress {
                    reports.push(frame);
                }
                progress.update();
            }
            EncodeStep::Finish => break,
        }
    }
    assert_eq!(frames, (0..121).collect::<Vec<u32>>());
    assert_eq!(reports, vec![0, 60, 120]);
    assert!(progress.is_complete());
    assert_eq!(EncodingProgress::new(0).next_step(), EncodeStep::Finish);
}
