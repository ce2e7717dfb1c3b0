use prollyglot_runtime::speech::{
    check_audio_packet, check_stream_request, leading_padding_samples, model_kind_for_backend,
    model_kind_for_location, nemotron_boundary_reached, trailing_padding_samples, LoadedModelKind,
    ModelLocation,
    SherpaOnlineConfig, SpeechError, SpeechErrorKind, SpeechEvent, SpeechStreamConfig,
    UtteranceTracker,
};

#[test]
fn default_stream_is_local_english_at_sixteen_kilohertz() {
    assert_eq!(
        SpeechStreamConfig::default(),
        SpeechStreamConfig {
            sample_rate: 16_000,
            language: "en".into(),
        }
    );
}

#[test]
fn enforces_a_bounded_nemotron_utterance_only_after_text_appears() {
    assert!(!nemotron_boundary_reached(
        LoadedModelKind::Nemotron,
        Some(1_000_000),
        4_999_999,
        true,
    ));
    assert!(nemotron_boundary_reached(
        LoadedModelKind::Nemotron,
        Some(1_000_000),
        5_000_000,
        true,
    ));
    assert!(!nemotron_boundary_reached(
        LoadedModelKind::Nemotron,
        Some(1_000_000),
        8_000_000,
        false,
    ));
    assert!(!nemotron_boundary_reached(
        LoadedModelKind::Transducer,
        Some(1_000_000),
        8_000_000,
        true,
    ));
}

#[test]
fn requires_a_loaded_model_before_streaming() {
    let languages = vec!["en".to_string()];
    let error = check_stream_request(&SpeechStreamConfig::default(), &languages, None)
        .expect_err("unloaded engine should fail");
    assert_eq!(error.kind, SpeechErrorKind::MissingModel);
}

#[test]
fn speech_errors_keep_their_text_and_recovery() {
    let error = SpeechError::new(
        SpeechErrorKind::MissingModel,
        "Install the English caption model.",
        true,
    );
    assert_eq!(error.to_string(), "Install the English caption model.");
    assert!(error.recoverable);
}

#[test]
fn backends_select_their_model_family() {
    assert_eq!(
        model_kind_for_backend("sherpa-onnx-online-nemotron"),
        Some(LoadedModelKind::Nemotron)
    );
    assert_eq!(
        model_kind_for_backend("sherpa-onnx-online-transducer"),
        Some(LoadedModelKind::Transducer)
    );
    assert_eq!(model_kind_for_backend("whisper"), None);
}

#[test]
fn stream_requests_are_checked_in_order() {
    let languages = vec!["en".to_string()];
    let zero_rate = SpeechStreamConfig { sample_rate: 0, language: "en".into() };
    assert_eq!(
        check_stream_request(&zero_rate, &languages, Some(LoadedModelKind::Nemotron))
            .unwrap_err()
            .kind,
        SpeechErrorKind::InvalidAudio
    );
    let spanish = SpeechStreamConfig { sample_rate: 16_000, language: "es".into() };
    let error = check_stream_request(&spanish, &languages, Some(LoadedModelKind::Nemotron))
        .unwrap_err();
    assert_eq!(error.kind, SpeechErrorKind::UnsupportedLanguage);
    assert_eq!(error.message, "the loaded model does not support es");
    assert_eq!(
        check_stream_request(&SpeechStreamConfig::default(), &languages, Some(LoadedModelKind::Transducer)),
        Ok(LoadedModelKind::Transducer)
    );
}

#[test]
fn at_least_one_recognizer_thread_is_used() {
    assert_eq!(SherpaOnlineConfig::default().num_threads, 2);
    assert_eq!(SherpaOnlineConfig { num_threads: -3 }.effective().num_threads, 1);
}

#[test]
fn utterances_report_partials_once_and_finalize_with_the_last_text() {
    let mut tracker = UtteranceTracker::new("en".to_string());
    tracker.observe_audio(100_000, 200_000);
    let first = tracker.observe_text("hello".to_string());
    match first {
        Some(SpeechEvent::Partial(hypothesis)) => {
            assert_eq!(hypothesis.text, "hello");
            assert_eq!(hypothesis.start_micros, 100_000);
            assert_eq!(hypothesis.end_micros, 200_000);
            assert_eq!(hypothesis.utterance_id, 0);
        }
        other => panic!("expected a partial, got {other:?}"),
    }
    assert!(tracker.observe_text("hello".to_string()).is_none());
    tracker.observe_audio(200_000, 300_000);
    match tracker.final_event(String::new()) {
        Some(SpeechEvent::Final(hypothesis)) => {
            assert_eq!(hypothesis.text, "hello");
            assert_eq!(hypothesis.start_micros, 100_000);
            assert_eq!(hypothesis.end_micros, 300_000);
        }
        other => panic!("expected a final, got {other:?}"),
    }
    tracker.advance_utterance();
    assert!(tracker.final_event(String::new()).is_none());
    tracker.finish();
    assert_eq!(tracker.ensure_open().unwrap_err().kind, SpeechErrorKind::Internal);
}

#[test]
fn audio_packets_must_match_the_stream() {
    assert!(check_audio_packet(16_000, 16_000, 1_600).is_ok());
    let error = check_audio_packet(16_000, 48_000, 3).unwrap_err();
    assert_eq!(error.kind, SpeechErrorKind::InvalidAudio);
    assert!(error.recoverable);
    assert_eq!(
        error.message,
        "expected non-empty 16000 Hz mono audio, received 48000 Hz with 3 samples"
    );
    assert!(check_audio_packet(16_000, 16_000, 0).is_err());
}

#[test]
fn nemotron_streams_are_padded_on_both_sides() {
    assert_eq!(trailing_padding_samples(LoadedModelKind::Transducer, 16_000), 0);
    assert_eq!(trailing_padding_samples(LoadedModelKind::Nemotron, 16_000), 12_800);
    assert_eq!(leading_padding_samples(LoadedModelKind::Nemotron, 16_000), 8_000);
    assert!(leading_padding_samples(LoadedModelKind::Transducer, 16_000) > 0);
}

#[test]
fn unsupported_backends_are_refused_by_name() {
    let location = ModelLocation {
        id: "odd".into(),
        backend: "whisper".into(),
        languages: vec!["en".into()],
        directory: "/models/odd".into(),
        artifacts: Default::default(),
    };
    let error = model_kind_for_location(&location).unwrap_err();
    assert_eq!(error.kind, SpeechErrorKind::BackendUnavailable);
    assert!(!error.recoverable);
    assert_eq!(error.message, "speech model odd uses unsupported backend whisper");
}
