use screen_recorder::recording::{
    compile_args, frame_file_name, frame_pause_ns, FrameCounter, Recording, RecordingOptions,
};
use screen_recorder::text::{decimal, zero_padded};

fn options(path: &str) -> RecordingOptions {
    RecordingOptions {
        audio: false,
        video: true,
        frame_rate: 24,
        quality: "low".to_string(),
        fps: 24,
        output_path: path.to_string(),
    }
}

#[test]
fn recording_new_lays_out_session() {
    let r = Recording::new("/h/recordings/20240101_000000".to_string());
    assert_eq!(r.screenshots_dir(), "/h/recordings/20240101_000000/screenshots");
    assert_eq!(r.mouse_events_file(), "/h/recordings/20240101_000000/mouse_events.json");
    assert_eq!(r.options().fps, 30);
    assert_eq!(r.options().quality, "high");
    assert_eq!(r.options().output_path, "/h/recordings/20240101_000000");
    let st = r.get_state(10_000);
    assert!(!st.is_recording);
    assert_eq!(st.duration, 0);
    assert!(st.output_path.is_none());
}

#[test]
fn recording_stop_before_start_fails() {
    let mut r = Recording::new("/s".to_string());
    assert_eq!(r.stop_recording(), Err("No recording in progress".to_string()));
}

#[test]
fn recording_start_twice_fails() {
    let mut r = Recording::new("/s".to_string());
    assert_eq!(r.start_recording(options("/out"), 1_000), Ok(()));
    assert_eq!(
        r.start_recording(options("/other"), 2_000),
        Err("Recording is already in progress".to_string())
    );
    assert_eq!(r.options().output_path, "/out");
}

#[test]
fn recording_state_and_stop() {
    let mut r = Recording::new("/s".to_string());
    r.start_recording(options("/out"), 1_000).unwrap();
    let st = r.get_state(4_500);
    assert!(st.is_recording);
    assert_eq!(st.duration, 3);
    assert_eq!(st.output_path, Some("/out".to_string()));
    assert_eq!(r.stop_recording(), Ok("/out/output.mp4".to_string()));
    assert_eq!(r.frames_dir(), "/out/screenshots");
    let st = r.get_state(6_000);
    assert!(!st.is_recording);
    assert_eq!(st.duration, 5);
    assert!(st.output_path.is_none());
}

#[test]
fn frame_names_are_zero_padded() {
    assert_eq!(frame_file_name(0), "frame_000000.png");
    assert_eq!(frame_file_name(42), "frame_000042.png");
    assert_eq!(frame_file_name(1234567), "frame_1234567.png");
    let r = Recording::new("/s".to_string());
    assert_eq!(r.frame_path(7), "/s/screenshots/frame_000007.png");
}

#[test]
fn decimal_and_padding() {
    assert_eq!(decimal(0), "0");
    assert_eq!(decimal(907), "907");
    assert_eq!(decimal(u64::MAX), u64::MAX.to_string());
    assert_eq!(zero_padded(5, 3), "005");
    assert_eq!(zero_padded(12345, 3), "12345");
}

#[test]
fn frame_pause_fills_interval() {
    // 30 fps: 33_333_333 ns per frame.
    assert_eq!(frame_pause_ns(30, 3_333_333), 30_000_000);
    assert_eq!(frame_pause_ns(30, 40_000_000), 0);
    assert_eq!(frame_pause_ns(1, 0), 1_000_000_000);
}

#[test]
fn compile_command_line() {
    let args = compile_args(&"/out/screenshots".to_string(), &"/out/output.mp4".to_string(), 30);
    let expected: Vec<String> = [
        "-framerate", "30", "-i", "/out/screenshots/frame_%06d.png", "-c:v", "libx264",
        "-pix_fmt", "yuv420p", "/out/output.mp4",
    ]
    .iter()
    .map(|s| s.to_string())
    .collect();
    assert_eq!(args, expected);
}

#[test]
fn frame_counter_skips_failed_captures() {
    let mut c = FrameCounter::new();
    assert_eq!(c.index(), 0);
    c.advance(true);
    c.advance(false);
    c.advance(true);
    assert_eq!(c.index(), 2);
}
