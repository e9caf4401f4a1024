use audio_pipeline::frame_buffer::FrameBuffer;
use audio_pipeline::playback::PlaybackBridge;
use audio_pipeline::CallbackDecision;

#[test]
fn fill_returns_head_in_insertion_order() {
    let mut buf = FrameBuffer::new();
    buf.append(&[1, 2, 3, 4, 5, 6, 7, 8, 9, 10]);

    let mut frames = vec![0u32; 4];
    buf.fill_frames(&mut frames);
    assert_eq!(frames, vec![1, 2, 3, 4]);
    assert_eq!(buf.len(), 6);

    let mut frames = vec![0u32; 4];
    buf.fill_frames(&mut frames);
    assert_eq!(frames, vec![5, 6, 7, 8]);
    assert_eq!(buf.len(), 2);
}

#[test]
fn fill_exactly_drains_whole_buffer() {
    let mut buf = FrameBuffer::new();
    buf.append(&[7, 8, 9]);

    let mut frames = vec![0u32; 3];
    buf.fill_frames(&mut frames);
    assert_eq!(frames, vec![7, 8, 9]);
    assert_eq!(buf.len(), 0);
}

#[test]
fn underrun_yields_whole_period_of_silence() {
    let mut buf = FrameBuffer::new();
    buf.append(&[11, 22, 33]);

    let mut frames = vec![99u32; 5];
    buf.fill_frames(&mut frames);
    assert_eq!(frames, vec![0, 0, 0, 0, 0]);
    // No partial drain: the buffered samples are still all there, in order.
    assert_eq!(buf.len(), 3);
    let mut frames = vec![0u32; 3];
    buf.fill_frames(&mut frames);
    assert_eq!(frames, vec![11, 22, 33]);
}

#[test]
fn zero_sample_request_is_served_from_any_buffer() {
    let mut buf = FrameBuffer::new();
    let mut frames: Vec<u32> = Vec::new();
    buf.fill_frames(&mut frames);
    assert_eq!(frames.len(), 0);
    assert_eq!(buf.len(), 0);

    buf.append(&[5, 6]);
    let mut frames: Vec<u32> = Vec::new();
    buf.fill_frames(&mut frames);
    assert_eq!(frames.len(), 0);
    assert_eq!(buf.len(), 2);
}

#[test]
fn append_keeps_arrival_order_across_segments() {
    let mut buf = FrameBuffer::new();
    buf.append(&[1, 2]);
    buf.append(&[3]);
    buf.append(&[4, 5, 6]);

    let mut frames = vec![0u32; 6];
    buf.fill_frames(&mut frames);
    assert_eq!(frames, vec![1, 2, 3, 4, 5, 6]);
}

#[test]
fn float_samples_survive_the_bit_pattern_carrier() {
    let pcm: Vec<f32> = vec![0.0, 0.5, -1.0, 0.25, -0.125];
    let bits: Vec<u32> = pcm.iter().map(|s| s.to_bits()).collect();

    let mut buf = FrameBuffer::new();
    buf.append(&bits);

    let mut frames = vec![0u32; 5];
    buf.fill_frames(&mut frames);
    let back: Vec<f32> = frames.iter().map(|b| f32::from_bits(*b)).collect();
    assert_eq!(back, pcm);

    // The silent sample's pattern really is the silent float.
    let mut frames = vec![7u32; 2];
    buf.fill_frames(&mut frames);
    assert_eq!(f32::from_bits(frames[0]), 0.0f32);
}

#[test]
fn playback_callback_serves_period_and_continues() {
    let bridge = PlaybackBridge::new(4);
    let mut buf = FrameBuffer::new();
    buf.append(&[9, 8, 7, 6, 5]);

    let mut frames = vec![0u32; 4];
    let r = bridge.on_audio_ready(&mut buf, &mut frames);
    assert_eq!(r, CallbackDecision::Continue);
    assert_eq!(frames, vec![9, 8, 7, 6]);
    assert_eq!(buf.len(), 1);

    // Underrun on the next period: silence, stream still running.
    let mut frames = vec![1u32; 4];
    let r = bridge.on_audio_ready(&mut buf, &mut frames);
    assert_eq!(r, CallbackDecision::Continue);
    assert_eq!(frames, vec![0, 0, 0, 0]);
    assert_eq!(buf.len(), 1);
}
