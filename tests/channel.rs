use screen_recorder::channel::{frame_channel, CHANNEL_CAPACITY};
use screen_recorder::pacing::CaptureLoop;
use screen_recorder::sink::{EncoderSink, SinkStep};

#[test]
fn channel_offer_drops_when_full() {
    let (mut tx, rx) = frame_channel();
    let mut lp = CaptureLoop::new(30);
    for i in 0..10u8 {
        assert!(lp.offer(&mut tx, vec![i]));
    }
    assert_eq!(lp.queued(), CHANNEL_CAPACITY as u64);
    assert_eq!(lp.dropped(), 10 - CHANNEL_CAPACITY as u64);
    assert_eq!(rx.len(), CHANNEL_CAPACITY);
    assert_eq!(rx.capacity(), Some(CHANNEL_CAPACITY));
    assert_eq!(rx.recv().unwrap(), vec![0u8]);
}

#[test]
fn channel_offer_stops_when_receiver_gone() {
    let (mut tx, rx) = frame_channel();
    drop(rx);
    let mut lp = CaptureLoop::new(30);
    assert!(!lp.offer(&mut tx, vec![1, 2, 3]));
    assert_eq!(lp.queued(), 0);
    assert_eq!(lp.dropped(), 0);
}

#[test]
fn channel_sink_drains_then_closes() {
    let (mut tx, rx) = frame_channel();
    let mut lp = CaptureLoop::new(30);
    assert!(lp.offer(&mut tx, vec![1]));
    assert!(lp.offer(&mut tx, vec![2]));
    drop(tx);
    let mut sink: EncoderSink<Vec<u8>> = EncoderSink::new();
    let mut out = Vec::new();
    let mut closes = 0;
    loop {
        match sink.receive(&rx) {
            SinkStep::Write(frame) => {
                out.extend_from_slice(&frame);
                let _ = sink.on_written(&frame, true);
            }
            SinkStep::CloseInput => closes += 1,
            SinkStep::Finished => break,
            SinkStep::Receive => {}
        }
    }
    assert_eq!(out, vec![1u8, 2]);
    assert_eq!(closes, 1);
}
