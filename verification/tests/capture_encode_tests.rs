use audio_pipeline::capture::{CaptureBridge, ChunkQueue};
use audio_pipeline::encode::{EncodeExit, EncodeSession};
use audio_pipeline::CallbackDecision;

#[test]
fn capture_forwards_each_period_and_continues() {
    let mut q = ChunkQueue::new();
    let bridge = CaptureBridge::new(4);

    assert_eq!(bridge.on_audio_ready(&mut q, &[1, 2, 3, 4]), CallbackDecision::Continue);
    assert_eq!(bridge.on_audio_ready(&mut q, &[5, 6, 7, 8]), CallbackDecision::Continue);

    assert_eq!(q.try_recv().unwrap(), vec![1, 2, 3, 4]);
    assert_eq!(q.try_recv().unwrap(), vec![5, 6, 7, 8]);
    assert!(q.try_recv().is_none());
}

#[test]
fn capture_never_blocks_without_a_consumer() {
    let mut q = ChunkQueue::new();
    q.drop_receiver();
    let bridge = CaptureBridge::new(8);
    let chunk = [0u32; 8];

    // Every hand-off with the consumer gone returns at once, telling the
    // hardware to stop; none of them waits for a receiver to appear.
    let started = std::time::Instant::now();
    for _ in 0..1000 {
        assert_eq!(bridge.on_audio_ready(&mut q, &chunk), CallbackDecision::Stop);
    }
    assert!(started.elapsed() < std::time::Duration::from_secs(5));
    assert!(q.try_recv().is_none());
}

#[test]
fn send_succeeds_only_while_receiver_lives() {
    let mut q = ChunkQueue::new();
    assert!(q.send(vec![1]));
    q.drop_receiver();
    assert!(!q.send(vec![2]));
    // The failed send left the queue as it was.
    assert_eq!(q.try_recv().unwrap(), vec![1]);
    assert!(q.try_recv().is_none());
}

#[test]
fn encode_handles_chunks_in_strict_fifo_order() {
    let mut q = ChunkQueue::new();
    let k = 8u32;
    for tag in 1..=k {
        assert!(q.send(vec![tag; 3]));
    }

    let mut session = EncodeSession::new();
    let reqs = session.run_pending(&mut q);
    assert_eq!(reqs.len(), k as usize);
    for (i, req) in reqs.iter().enumerate() {
        assert_eq!(req.batch, 1);
        assert_eq!(req.channels, 1);
        assert_eq!(req.samples, vec![i as u32 + 1; 3]);
    }
    assert!(session.running());
}

#[test]
fn poll_shapes_one_request_per_chunk() {
    let mut q = ChunkQueue::new();
    assert!(q.send(vec![42, 43]));

    let mut session = EncodeSession::new();
    let req = session.poll(&mut q).unwrap();
    assert_eq!(req.batch, 1);
    assert_eq!(req.channels, 1);
    assert_eq!(req.samples, vec![42, 43]);

    // Nothing pending, producer still attached: the worker just waits.
    assert!(session.poll(&mut q).is_none());
    assert!(session.running());
    assert!(session.stop_reason().is_none());
}

#[test]
fn exhausted_and_disconnected_channel_ends_the_worker() {
    let mut q = ChunkQueue::new();
    assert!(q.send(vec![9]));
    q.drop_sender();

    let mut session = EncodeSession::new();
    // The chunk already pending is still handed over first.
    let req = session.poll(&mut q).unwrap();
    assert_eq!(req.samples, vec![9]);
    assert!(session.running());

    assert!(session.poll(&mut q).is_none());
    assert!(!session.running());
    assert_eq!(session.stop_reason(), Some(EncodeExit::ChannelClosed));
}

#[test]
fn step_failure_ends_the_worker_for_good() {
    let mut session = EncodeSession::new();
    session.on_step_result(true);
    assert!(session.running());
    session.on_step_result(false);
    assert!(!session.running());
    assert_eq!(session.stop_reason(), Some(EncodeExit::StepFailed));
}
