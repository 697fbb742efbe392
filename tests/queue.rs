use screen_recorder::queue::{Admission, FrameQueue};
use screen_recorder::sink::{drain_closed, EncoderSink, SinkStep};

#[test]
fn queue_never_exceeds_capacity() {
    for cap in 1..6usize {
        let mut q: FrameQueue<u32> = FrameQueue::new(cap);
        for i in 0..20u32 {
            let _ = q.push(i);
            assert!(q.len() <= cap);
            if i % 3 == 0 {
                let _ = q.pop();
            }
            assert!(q.len() <= cap);
        }
    }
}

#[test]
fn queue_full_drops_newest() {
    let mut q: FrameQueue<u32> = FrameQueue::new(2);
    assert!(matches!(q.push(1), Admission::Queued));
    assert!(matches!(q.push(2), Admission::Queued));
    assert!(matches!(q.push(3), Admission::Dropped(3)));
    assert_eq!(q.len(), 2);
    assert_eq!(q.pop(), Some(1));
    assert_eq!(q.pop(), Some(2));
    assert_eq!(q.pop(), None);
}

#[test]
fn queue_keeps_order_under_drops() {
    let mut q: FrameQueue<u32> = FrameQueue::new(3);
    let mut delivered = Vec::new();
    for i in 0..50u32 {
        let _ = q.push(i);
        if i % 4 == 0 {
            if let Some(f) = q.pop() {
                delivered.push(f);
            }
        }
    }
    while let Some(f) = q.pop() {
        delivered.push(f);
    }
    assert!(!delivered.is_empty());
    assert!(delivered.windows(2).all(|w| w[0] < w[1]));
}

#[test]
fn queue_stalled_consumer_never_blocks() {
    let mut q: FrameQueue<Vec<u8>> = FrameQueue::new(4);
    let mut dropped = 0u32;
    for i in 0..10_000u32 {
        match q.push(vec![(i % 256) as u8]) {
            Admission::Queued => {}
            Admission::Dropped(_) => dropped += 1,
            Admission::Closed(_) => panic!("queue is open"),
        }
    }
    assert_eq!(q.len(), 4);
    assert_eq!(dropped, 9_996);
}

#[test]
fn queue_closed_refuses_and_drains() {
    let mut q: FrameQueue<u32> = FrameQueue::new(4);
    let _ = q.push(7);
    let _ = q.push(8);
    q.close();
    assert!(q.closed());
    assert!(matches!(q.push(9), Admission::Closed(9)));
    assert_eq!(q.pop(), Some(7));
    assert_eq!(q.pop(), Some(8));
    assert_eq!(q.pop(), None);
}

#[test]
fn sink_closes_input_once_after_drain() {
    let mut q: FrameQueue<u32> = FrameQueue::new(4);
    let _ = q.push(1);
    let _ = q.push(2);
    let _ = q.push(3);
    q.close();
    let mut sink: EncoderSink<u32> = EncoderSink::new();
    let written = drain_closed(&mut q, &mut sink);
    assert_eq!(written, vec![1, 2, 3]);
    assert!(!sink.input_open());
    assert_eq!(q.len(), 0);
    assert!(matches!(sink.on_receive(None), SinkStep::Finished));
    assert!(matches!(sink.on_receive(Some(4)), SinkStep::Finished));
}

#[test]
fn sink_write_failure_closes_input() {
    let mut sink: EncoderSink<u32> = EncoderSink::new();
    let step = sink.on_receive(Some(5));
    assert!(matches!(step, SinkStep::Write(5)));
    assert!(matches!(sink.on_written(&5, true), SinkStep::Receive));
    assert!(matches!(sink.on_receive(Some(6)), SinkStep::Write(6)));
    assert!(matches!(sink.on_written(&6, false), SinkStep::CloseInput));
    assert!(!sink.input_open());
    assert!(matches!(sink.on_written(&6, false), SinkStep::Finished));
}
