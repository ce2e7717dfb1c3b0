use prollyglot_runtime::buffer::BoundedSampleBuffer;

#[test]
fn buffer_returns_fixed_chunks_with_timestamps() {
    let mut buffer = BoundedSampleBuffer::new(16_000, 3_200);
    buffer.push(500_000, &vec![0.5_f32; 2_000]);
    let chunk = buffer.pop_exact(1_600).expect("one chunk");

    assert_eq!(chunk.start_micros, 500_000);
    assert_eq!(chunk.end_micros, 600_000);
    assert_eq!(chunk.samples.len(), 1_600);
    assert_eq!(buffer.available_samples(), 400);
}

#[test]
fn overflow_drops_oldest_audio_and_advances_time() {
    let mut buffer = BoundedSampleBuffer::new(1_000, 4);
    buffer.push(10_000, &[1.0_f32, 2.0, 3.0]);
    let report = buffer.push(13_000, &[4.0, 5.0, 6.0]);
    let chunk = buffer.pop_exact(4).expect("full buffer");

    assert_eq!(report.dropped_samples, 2);
    assert_eq!(report.total_dropped_samples, 2);
    assert_eq!(chunk.start_micros, 12_000);
    assert_eq!(chunk.samples, vec![3.0, 4.0, 5.0, 6.0]);
}

#[test]
fn oversized_input_keeps_only_its_newest_samples() {
    let mut buffer = BoundedSampleBuffer::new(1_000, 3);
    buffer.push(0, &[9.0_f32]);
    let report = buffer.push(1_000, &[1.0, 2.0, 3.0, 4.0, 5.0]);
    let chunk = buffer.pop_exact(3).expect("full buffer");

    assert_eq!(report.dropped_samples, 3);
    assert_eq!(chunk.start_micros, 3_000);
    assert_eq!(chunk.samples, vec![3.0, 4.0, 5.0]);
}

#[test]
fn short_buffers_refuse_partial_chunks_and_clear_resets_time() {
    let mut buffer = BoundedSampleBuffer::new(1_000, 8);
    buffer.push(5_000, &[1_i16, 2, 3]);
    assert!(buffer.pop_exact(4).is_none());
    assert!(buffer.pop_exact(0).is_none());
    buffer.clear();
    assert_eq!(buffer.available_samples(), 0);
    buffer.push(9_000, &[7_i16, 8]);
    let chunk = buffer.pop_exact(2).expect("two samples");
    assert_eq!(chunk.start_micros, 9_000);
    assert_eq!(chunk.end_micros, 11_000);
    assert_eq!(buffer.total_dropped_samples(), 0);
}

#[test]
fn the_buffer_keeps_at_most_its_capacity_and_drops_only_overflow() {
    let mut buffer = BoundedSampleBuffer::new(10, 4);
    let report = buffer.push(0, &[1i16, 2, 3]);
    assert_eq!(report.dropped_samples, 0);
    let empty = buffer.push(500, &[]);
    assert_eq!(empty.dropped_samples, 0);
    assert_eq!(buffer.available_samples(), 3);
    let report = buffer.push(300, &[4, 5, 6]);
    assert_eq!(report.dropped_samples, 2);
    assert_eq!(report.total_dropped_samples, 2);
    assert_eq!(buffer.available_samples(), 4);
    let chunk = buffer.pop_exact(4).expect("four newest samples");
    assert_eq!(chunk.samples, vec![3, 4, 5, 6]);
}
