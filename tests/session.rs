use screen_recorder::session::{
    encoder_args, exit_wait, ExitWait, Phase, RecordingOptions, StartError, StopError, Supervisor,
};

fn opts(fps: u32, events: bool) -> RecordingOptions {
    RecordingOptions { fps, show_cursor: true, show_highlight: false, capture_keystrokes: events }
}

fn recording_supervisor(events: bool) -> Supervisor {
    let mut s = Supervisor::new();
    s.begin_start(&opts(30, events), true, true).unwrap();
    if events {
        s.helper_spawned();
    }
    s.finish_start("/home/u/recordings/20240101_120000".to_string(), 30, 1_000);
    s
}

#[test]
fn stop_before_start_is_not_recording() {
    let mut s = Supervisor::new();
    assert!(matches!(s.begin_stop(), Err(StopError::NotRecording)));
    assert_eq!(s.phase(), Phase::Idle);
    let st = s.state(5_000);
    assert!(!st.is_recording);
    assert_eq!(st.duration, 0);
}

#[test]
fn start_while_recording_is_refused() {
    let mut s = recording_supervisor(true);
    assert!(matches!(s.begin_start(&opts(60, false), true, true), Err(StartError::AlreadyRecording)));
    assert_eq!(s.phase(), Phase::Recording);
    let plan = s.begin_stop().unwrap();
    assert!(plan.terminate_helper);
    assert_eq!(plan.output_file, "/home/u/recordings/20240101_120000/output.mp4");
}

#[test]
fn start_capability_errors() {
    let mut s = Supervisor::new();
    assert!(matches!(s.begin_start(&opts(30, false), false, true), Err(StartError::UnsupportedPlatform)));
    assert_eq!(s.phase(), Phase::Failed);
    assert!(matches!(s.begin_start(&opts(30, false), true, false), Err(StartError::PermissionDenied)));
    assert_eq!(s.phase(), Phase::Failed);
    assert!(s.begin_start(&opts(30, false), true, true).is_ok());
    assert_eq!(s.phase(), Phase::Starting);
}

#[test]
fn start_source_failure_reports_reason() {
    let mut s = Supervisor::new();
    s.begin_start(&opts(30, true), true, true).unwrap();
    s.helper_spawned();
    let (err, kill_helper) = s.abort_start("no display".to_string());
    assert!(matches!(err, StartError::SourceInitFailed(ref r) if r == "no display"));
    assert!(kill_helper);
    assert_eq!(s.phase(), Phase::Failed);
}

#[test]
fn stop_validates_artifact() {
    let mut s = recording_supervisor(false);
    let plan = s.begin_stop().unwrap();
    assert!(!plan.terminate_helper);
    assert_eq!(s.phase(), Phase::Stopping);
    let out = s.finish_stop(Some(1234)).unwrap();
    assert_eq!(out, "/home/u/recordings/20240101_120000/output.mp4");
    assert_eq!(s.phase(), Phase::Idle);

    let mut s = recording_supervisor(false);
    s.begin_stop().unwrap();
    assert!(matches!(s.finish_stop(Some(0)), Err(StopError::OutputValidationFailed(_))));
    assert_eq!(s.phase(), Phase::Failed);

    let mut s = recording_supervisor(false);
    s.begin_stop().unwrap();
    assert!(matches!(s.finish_stop(None), Err(StopError::OutputValidationFailed(_))));
}

#[test]
fn state_reports_elapsed_seconds() {
    let s = recording_supervisor(false);
    let st = s.state(3_999);
    assert!(st.is_recording);
    assert_eq!(st.duration, 2);
    assert!(st.error.is_none());
    assert_eq!(s.state(500).duration, 0);
}

#[test]
fn encoder_command_line() {
    let args = encoder_args(1920, 1080, 24, &"/tmp/s/output.mp4".to_string());
    let expected: Vec<String> = [
        "-y", "-f", "rawvideo", "-pix_fmt", "bgra", "-s", "1920x1080", "-r", "24", "-i", "-",
        "-c:v", "libx264", "-preset", "ultrafast", "-pix_fmt", "yuv420p", "/tmp/s/output.mp4",
    ]
    .iter()
    .map(|s| s.to_string())
    .collect();
    assert_eq!(args, expected);
}

#[test]
fn exit_wait_escalates_to_kill() {
    assert_eq!(exit_wait(true, 0, 100), ExitWait::Exited);
    assert_eq!(exit_wait(false, 99, 100), ExitWait::KeepWaiting);
    assert_eq!(exit_wait(false, 100, 100), ExitWait::ForceKill);
}
