use prollyglot_runtime::voice::{
    EnergyVoiceDetector, ProcessedAudioChunk, SpeechChunkRouter, VoiceActivity,
};

fn chunk(index: u64, voice_activity: VoiceActivity) -> ProcessedAudioChunk<f32> {
    ProcessedAudioChunk {
        start_micros: index * 100_000,
        end_micros: (index + 1) * 100_000,
        sample_rate: 16_000,
        samples: vec![index as f32; 1_600],
        voice_activity,
        rms: 0.0,
    }
}

#[test]
fn keeps_three_leading_chunks_and_the_release_chunk() {
    let mut router = SpeechChunkRouter::new(3);
    for index in 0..5 {
        assert!(
            router
                .route(chunk(index, VoiceActivity::Silence))
                .chunks
                .is_empty()
        );
    }

    let started = router.route(chunk(5, VoiceActivity::Started));
    assert_eq!(
        started
            .chunks
            .iter()
            .map(|chunk| chunk.start_micros)
            .collect::<Vec<_>>(),
        vec![200_000, 300_000, 400_000, 500_000]
    );
    assert!(!started.end_utterance);

    let ended = router.route(chunk(6, VoiceActivity::Ended));
    assert_eq!(ended.chunks.len(), 1);
    assert_eq!(ended.chunks[0].start_micros, 600_000);
    assert!(ended.end_utterance);
}

#[test]
fn reset_discards_pre_roll_from_the_previous_stream() {
    let mut router = SpeechChunkRouter::new(3);
    router.route(chunk(0, VoiceActivity::Silence));
    router.reset();

    let started = router.route(chunk(1, VoiceActivity::Started));
    assert_eq!(started.chunks.len(), 1);
    assert_eq!(started.chunks[0].start_micros, 100_000);
}

#[test]
fn attack_and_release_debounce_phrase_boundaries() {
    let mut detector = EnergyVoiceDetector::new(2, 2);

    assert_eq!(detector.observe_level(true), VoiceActivity::Silence);
    assert_eq!(detector.observe_level(true), VoiceActivity::Started);
    assert_eq!(detector.observe_level(false), VoiceActivity::Speech);
    assert_eq!(detector.observe_level(false), VoiceActivity::Ended);
    assert_eq!(detector.observe_level(false), VoiceActivity::Silence);
}

#[test]
fn defaults_keep_trailing_context() {
    let mut detector = EnergyVoiceDetector::new(1, 6);

    assert_eq!(detector.observe_level(false), VoiceActivity::Silence);
    assert_eq!(detector.observe_level(true), VoiceActivity::Started);
    for _ in 0..5 {
        assert_eq!(detector.observe_level(false), VoiceActivity::Speech);
    }
    assert_eq!(detector.observe_level(false), VoiceActivity::Ended);
    assert!(!detector.is_active());
}

#[test]
fn zero_attack_and_release_still_take_one_chunk() {
    let mut detector = EnergyVoiceDetector::new(0, 0);
    assert_eq!(detector.observe_level(true), VoiceActivity::Started);
    assert_eq!(detector.observe_level(false), VoiceActivity::Ended);
    detector.observe_level(true);
    detector.reset();
    assert!(!detector.is_active());
}

/// The energy of a chunk, as the capture side measures it.
fn root_mean_square(samples: &[f32]) -> f32 {
    if samples.is_empty() {
        return 0.0;
    }
    (samples.iter().map(|sample| sample * sample).sum::<f32>() / samples.len() as f32).sqrt()
}

#[test]
fn defaults_admit_quiet_digital_speech_and_keep_trailing_context() {
    // The default gate: a 0.001 energy threshold, one chunk of attack and
    // six chunks of release.
    let threshold = 0.001_f32;
    let mut detector = EnergyVoiceDetector::new(1, 6);
    let mut observe = |samples: &[f32]| detector.observe_level(root_mean_square(samples) >= threshold);

    assert_eq!(observe(&[0.0005; 8]), VoiceActivity::Silence);
    assert_eq!(observe(&[0.0015; 8]), VoiceActivity::Started);
    for _ in 0..5 {
        assert_eq!(observe(&[0.0; 8]), VoiceActivity::Speech);
    }
    assert_eq!(observe(&[0.0; 8]), VoiceActivity::Ended);
}
