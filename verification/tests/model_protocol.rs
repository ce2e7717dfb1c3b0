use prollyglot_runtime::model_protocol::{
    artifact_range, find_artifact, is_json_artifact, parse_range, parse_resource_path,
    require_artifact_size, require_ready_model, require_verified_model, ArtifactEntry,
    MAX_PROTOCOL_CHUNK_BYTES,
};
use prollyglot_runtime::models::{
    TranslationModelPhase, TranslationStorageCatalog, TranslationStorageStatus,
};

#[test]
fn protocol_ranges_are_bounded_and_reject_invalid_requests() {
    assert_eq!(
        parse_range("bytes=0-99", 1_000).expect("small range"),
        (0, 99)
    );
    assert_eq!(
        parse_range("bytes=0-99999999", 10_000_000).expect("bounded range"),
        (0, MAX_PROTOCOL_CHUNK_BYTES - 1)
    );
    assert!(parse_range("bytes=100-50", 1_000).is_err());
    assert!(parse_range("bytes=1000-", 1_000).is_err());
    assert!(parse_range("items=0-10", 1_000).is_err());
}

#[test]
fn range_rejections_name_their_reason() {
    let message = |value: &str, total: u64| parse_range(value, total).unwrap_err();
    assert_eq!(message("items=0-10", 1_000), (416, "Only byte ranges are supported.".to_string()));
    assert_eq!(
        message("bytes=0-1,4-5", 1_000),
        (416, "Multipart model ranges are not supported.".to_string())
    );
    assert_eq!(message("bytes=10", 1_000), (416, "The model byte range is invalid.".to_string()));
    assert_eq!(message("bytes=-10", 1_000), (416, "The model byte range start is invalid.".to_string()));
    assert_eq!(
        message("bytes=1000-", 1_000),
        (416, "The model byte range begins after the artifact.".to_string())
    );
    assert_eq!(message("bytes=1-x", 1_000), (416, "The model byte range end is invalid.".to_string()));
    assert_eq!(message("bytes=100-50", 1_000), (416, "The model byte range is reversed.".to_string()));
}

#[test]
fn open_ranges_end_at_the_artifact_or_the_chunk() {
    assert_eq!(parse_range("bytes=990-", 1_000), Ok((990, 999)));
    assert_eq!(parse_range("bytes=+5-+7", 1_000), Ok((5, 7)));
    assert_eq!(parse_range("bytes=10-5000", 1_000), Ok((10, 999)));
    assert_eq!(
        parse_range("bytes=100-", u64::MAX),
        Ok((100, 100 + MAX_PROTOCOL_CHUNK_BYTES - 1))
    );
    assert_eq!(
        parse_range("bytes=18446744073709551613-", u64::MAX),
        Ok((u64::MAX - 2, u64::MAX - 1))
    );
}

#[test]
fn protocol_paths_name_a_model_and_one_of_its_resources() {
    assert_eq!(
        parse_resource_path("/translation/opus-ja-en/onnx/encoder.onnx"),
        Ok(("opus-ja-en".to_string(), "onnx/encoder.onnx".to_string()))
    );
    assert_eq!(
        parse_resource_path("//translation/opus-ja-en/verified"),
        Ok(("opus-ja-en".to_string(), "verified".to_string()))
    );
    assert_eq!(
        parse_resource_path("/speech/model/file"),
        Err((404, "Unknown model resource.".to_string()))
    );
    assert_eq!(
        parse_resource_path("/translation"),
        Err((404, "Missing model identifier.".to_string()))
    );
    assert_eq!(
        parse_resource_path("/translation/opus-ja-en"),
        Err((404, "Missing model resource.".to_string()))
    );
    assert_eq!(
        parse_resource_path("/translation/opus-ja-en/"),
        Err((404, "Missing model resource.".to_string()))
    );
}

fn artifacts() -> Vec<ArtifactEntry> {
    vec![
        ArtifactEntry { path: "config.json".into(), size_bytes: 700 },
        ArtifactEntry { path: "onnx/encoder_model_quantized.onnx".into(), size_bytes: 5_000_000 },
    ]
}

#[test]
fn only_manifest_artifacts_are_served() {
    let artifacts = artifacts();
    assert_eq!(find_artifact(&artifacts, "onnx/encoder_model_quantized.onnx"), Ok(1));
    assert_eq!(
        find_artifact(&artifacts, "../outside"),
        Err((404, "Unknown model artifact.".to_string()))
    );
    assert!(is_json_artifact(&artifacts[0].path));
    assert!(!is_json_artifact(&artifacts[1].path));
    assert!(!is_json_artifact("json"));
}

#[test]
fn artifact_reads_need_a_range_and_an_unchanged_file() {
    assert_eq!(
        artifact_range(None, 700),
        Err((400, "Native model artifacts require an explicit byte range.".to_string()))
    );
    assert_eq!(artifact_range(Some("bytes=0-"), 700), Ok((0, 699)));
    assert_eq!(
        artifact_range(Some("bytes=0-"), 5_000_000),
        Ok((0, MAX_PROTOCOL_CHUNK_BYTES - 1))
    );
    assert_eq!(
        artifact_range(Some("bytes=0-1,4-5"), 700),
        Err((416, "Multipart model ranges are not supported.".to_string()))
    );
    assert_eq!(require_artifact_size(700, 700), Ok(()));
    assert_eq!(
        require_artifact_size(12, 700),
        Err((409, "The native model artifact changed size (12 instead of 700).".to_string()))
    );
}

#[test]
fn only_ready_and_verified_models_are_served() {
    let mut catalog = TranslationStorageCatalog {
        models: vec![TranslationStorageStatus {
            phase: TranslationModelPhase::NotInstalled,
            storage_id: "translation-opus-mt-ja-en".into(),
            downloaded_bytes: 0,
            total_bytes: 300,
            message: None,
        }],
    };
    assert_eq!(
        require_ready_model(&catalog, "translation-opus-mt-ja-en"),
        Err((404, "The native model is not ready.".to_string()))
    );
    catalog.models[0].phase = TranslationModelPhase::Ready;
    assert_eq!(require_ready_model(&catalog, "translation-opus-mt-ja-en"), Ok(()));
    assert!(require_ready_model(&catalog, "translation-other").is_err());
    assert_eq!(require_verified_model(true), Ok(()));
    assert_eq!(
        require_verified_model(false),
        Err((409, "The native model no longer passes verification.".to_string()))
    );
}
