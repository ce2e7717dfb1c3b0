use prollyglot_runtime::graph::CaptureError;
use prollyglot_runtime::pipeline::{
    check_sample_rates, signed_i24, whole_frame_count, AudioPipelineError, AudioPipelineState,
    ResamplerError,
};
use prollyglot_runtime::voice::VoiceActivity;

fn state(chunk_samples: usize, buffer_samples: usize) -> AudioPipelineState<f32> {
    AudioPipelineState::new(16_000, chunk_samples, buffer_samples, 1, 6).expect("valid config")
}

/// Pushes a 48 kHz frame of `input` samples, resampled by keeping every
/// third sample, as the tests of the full pipeline do.
fn push(
    pipeline: &mut AudioPipelineState<f32>,
    sequence: u64,
    input: usize,
) -> prollyglot_runtime::pipeline::PipelinePushReport {
    let duration = input as u64 * 1_000_000 / 48_000;
    let reset = pipeline
        .begin_frame("device", sequence, 48_000, false)
        .expect("valid frame");
    let resampled = vec![0.2_f32; input / 3];
    pipeline.finish_frame(
        "device".to_string(),
        sequence,
        48_000,
        (sequence + 1) * duration,
        input,
        &resampled,
        reset,
    )
}

#[test]
fn configurations_must_hold_one_full_chunk() {
    assert!(matches!(
        AudioPipelineState::<f32>::new(0, 1_600, 80_000, 1, 6),
        Err(AudioPipelineError::InvalidConfiguration)
    ));
    assert!(matches!(
        AudioPipelineState::<f32>::new(16_000, 1_600, 800, 1, 6),
        Err(AudioPipelineError::InvalidConfiguration)
    ));
    assert!(AudioPipelineState::<f32>::new(16_000, 1_600, 1_600, 1, 6).is_ok());
    assert_eq!(check_sample_rates(0, 16_000), Err(ResamplerError::InvalidSampleRate));
    assert_eq!(check_sample_rates(48_000, 16_000), Ok(()));
    assert_eq!(
        AudioPipelineError::Resampler(ResamplerError::InvalidSampleRate).to_string(),
        "input and output sample rates must be non-zero"
    );
}

#[test]
fn produces_fixed_sixteen_kilohertz_chunks() {
    let mut pipeline = state(1_600, 80_000);
    let report = push(&mut pipeline, 0, 5_120);
    assert!(!report.stream_reset);
    let chunk = pipeline.take_chunk().expect("one 100 ms chunk");
    assert_eq!(chunk.samples.len(), 1_600);
    assert_eq!(chunk.start_micros, 0);
    assert_eq!(chunk.end_micros, 100_000);
    let processed = pipeline.observe_chunk(chunk, true, 0.2);
    assert_eq!(processed.sample_rate, 16_000);
    assert_eq!(processed.voice_activity, VoiceActivity::Started);
    assert!(pipeline.take_chunk().is_none());
}

#[test]
fn packet_gap_discards_unfinished_audio() {
    let mut pipeline = state(1_600, 80_000);
    push(&mut pipeline, 0, 2_400);
    assert_eq!(pipeline.buffered_samples(), 800);
    let report = push(&mut pipeline, 2, 5_120);
    assert!(report.stream_reset);
    assert_eq!(pipeline.buffered_samples(), 1_706);

    assert_eq!(pipeline.begin_frame("device", 3, 48_000, false), Ok(false));
    assert_eq!(pipeline.begin_frame("other", 3, 48_000, false), Ok(true));
    assert_eq!(pipeline.buffered_samples(), 0);
    assert_eq!(
        pipeline.begin_frame("device", 0, 0, false),
        Err(AudioPipelineError::InvalidInputSampleRate)
    );
}

#[test]
fn bounded_pipeline_reports_dropped_audio() {
    let mut pipeline = state(800, 1_000);
    let report = push(&mut pipeline, 0, 5_120);
    assert_eq!(report.dropped_samples, 706);
    assert_eq!(report.total_dropped_samples, 706);
    assert_eq!(pipeline.buffered_samples(), 1_000);
}

#[test]
fn rejects_partial_native_frame() {
    // Two channels of 32-bit float samples make eight-byte frames.
    let error = whole_frame_count(7, 2 * 4).expect_err("partial frame should fail");
    assert!(matches!(error, CaptureError::InvalidFormat(_)));
    assert_eq!(
        error,
        CaptureError::InvalidFormat("7 bytes is not a whole number of 8-byte frames".into())
    );
    assert_eq!(whole_frame_count(16, 8), Ok(2));
    assert_eq!(whole_frame_count(0, 6), Ok(0));
}

#[test]
fn decodes_signed_i24() {
    let bytes = [0x00, 0x00, 0x40, 0x00, 0x00, 0xc0];
    let samples: Vec<f32> = bytes
        .chunks(3)
        .map(|sample| signed_i24(sample[0], sample[1], sample[2]) as f32 / 8_388_608.0)
        .collect();
    assert!((samples[0] - 0.5).abs() < 0.000_01);
    assert!((samples[1] + 0.5).abs() < 0.000_01);
    assert_eq!(signed_i24(0xff, 0xff, 0x7f), 8_388_607);
    assert_eq!(signed_i24(0x00, 0x00, 0x80), -8_388_608);
    assert_eq!(signed_i24(0xff, 0xff, 0xff), -1);
}

#[test]
fn rejects_zero_sample_rates() {
    assert!(matches!(
        check_sample_rates(0, 16_000),
        Err(ResamplerError::InvalidSampleRate)
    ));
    assert!(matches!(
        check_sample_rates(48_000, 0),
        Err(ResamplerError::InvalidSampleRate)
    ));
}
