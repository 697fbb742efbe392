use screen_recorder::pacing::{
    achievable_fps, clamp_fps, CaptureLoop, CaptureStep, FrameOutcome, PROBE_SAMPLES,
};
use screen_recorder::queue::{Admission, FrameQueue};
use screen_recorder::session::{RecordingOptions, Supervisor};
use screen_recorder::sink::{drain_closed, EncoderSink, SinkStep};

/// A 1x1 BGRA frame.
fn test_frame() -> Vec<u8> {
    vec![0x10, 0x20, 0x30, 0xFF]
}

#[test]
fn pipeline_two_simulated_seconds_at_thirty_fps() {
    let opts = RecordingOptions {
        fps: 30,
        show_cursor: false,
        show_highlight: false,
        capture_keystrokes: false,
    };
    let mut sup = Supervisor::new();
    sup.begin_start(&opts, true, true).unwrap();

    // The test source answers in 2 ms: 500 fps achievable, so 30 stands.
    let fps = clamp_fps(opts.fps, achievable_fps(&vec![2_000_000u64; PROBE_SAMPLES]));
    assert_eq!(fps, 30);
    sup.finish_start("/rec/session".to_string(), fps, 0);

    let mut lp = CaptureLoop::new(fps);
    let mut queue: FrameQueue<Vec<u8>> = FrameQueue::new(4);
    let mut sink: EncoderSink<Vec<u8>> = EncoderSink::new();
    let mut artifact: Vec<u8> = Vec::new();
    let mut observed = 0u64;
    let run_ns = 2_000_000_000u64;
    let mut now = 0u64;
    loop {
        match lp.next_step(now < run_ns, now) {
            CaptureStep::Stop => break,
            CaptureStep::Sleep(d) => now += d,
            CaptureStep::Capture => {
                let outcome = match queue.push(test_frame()) {
                    Admission::Queued => FrameOutcome::Queued,
                    Admission::Dropped(_) => FrameOutcome::Dropped,
                    Admission::Closed(_) => FrameOutcome::Disconnected,
                };
                assert!(lp.record(outcome));
                while let Some(frame) = queue.pop() {
                    match sink.on_receive(Some(frame)) {
                        SinkStep::Write(f) => {
                            artifact.extend_from_slice(&f);
                            observed += 1;
                            assert!(matches!(sink.on_written(&f, true), SinkStep::Receive));
                        }
                        _ => panic!("sink closed early"),
                    }
                }
            }
        }
    }
    queue.close();
    let rest = drain_closed(&mut queue, &mut sink);
    assert!(rest.is_empty());
    assert!(!sink.input_open());

    assert_eq!(observed, 60);
    assert_eq!(lp.dropped(), 0);
    assert_eq!(artifact.len(), 60 * 4);

    let plan = sup.begin_stop().unwrap();
    assert_eq!(plan.output_file, "/rec/session/output.mp4");
    let out = sup.finish_stop(Some(artifact.len() as u64)).unwrap();
    assert_eq!(out, "/rec/session/output.mp4");
}

#[test]
fn pipeline_stalled_consumer_drops_frames() {
    let mut lp = CaptureLoop::new(30);
    let mut queue: FrameQueue<Vec<u8>> = FrameQueue::new(4);
    let mut now = 0u64;
    loop {
        match lp.next_step(now < 1_000_000_000, now) {
            CaptureStep::Stop => break,
            CaptureStep::Sleep(d) => now += d,
            CaptureStep::Capture => {
                let outcome = match queue.push(test_frame()) {
                    Admission::Queued => FrameOutcome::Queued,
                    Admission::Dropped(_) => FrameOutcome::Dropped,
                    Admission::Closed(_) => FrameOutcome::Disconnected,
                };
                assert!(lp.record(outcome));
            }
        }
    }
    assert_eq!(lp.queued(), 4);
    assert_eq!(lp.dropped(), 26);
    assert_eq!(queue.len(), 4);
}
