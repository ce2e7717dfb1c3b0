//! The model catalogs shown after the installed models were checked on
//! disk: what each manifest's check found becomes its status, with the
//! product names and descriptions the settings screen shows. Checking the
//! files is the model manager's part.

use vstd::prelude::*;
use vstd::string::*;

use crate::models::{
    ModelCatalogStatus, ModelPhase, ModelStatus, TranslationModelPhase, TranslationStorageCatalog,
    TranslationStorageStatus, VisualModelCatalogStatus, VisualModelPhase, VisualModelStatus,
};
use crate::speech::str_eq;

verus! {

/// What checking a model's files on disk found.
#[derive(Clone, Debug, PartialEq, Eq)]
pub enum InstallState {
    NotInstalled,
    Ready,
    /// Installed, with the problems found in its files.
    Corrupt(Vec<String>),
    /// The files could not be checked, for the reason given.
    Unreadable(String),
}

/// The parts of a model manifest that its status shows.
#[derive(Clone, Debug, PartialEq, Eq)]
pub struct ManifestSummary {
    pub id: String,
    pub display_name: String,
    pub languages: Vec<String>,
    pub download_size_bytes: u64,
}

/// The views of some texts.
pub open spec fn text_views(texts: Seq<String>) -> Seq<Seq<char>> {
    texts.map_values(|text: String| text@)
}

/// `parts` joined by `separator`, as `join` on a slice of strings gives.
pub open spec fn joined_with(parts: Seq<Seq<char>>, separator: Seq<char>) -> Seq<char>
    decreases parts.len(),
{
    if parts.len() == 0 {
        Seq::empty()
    } else if parts.len() == 1 {
        parts[0]
    } else {
        joined_with(parts.drop_last(), separator) + separator + parts.last()
    }
}

/// Joins `parts` with `separator` between each two.
pub fn join_texts(parts: &Vec<String>, separator: &str) -> (text: String)
    ensures
        text@ == joined_with(text_views(parts@), separator@),
{
    let mut text = String::new();
    let mut index: usize = 0;
    while index < parts.len()
        invariant
            index <= parts@.len(),
            text@ == joined_with(text_views(parts@.take(index as int)), separator@),
        decreases parts@.len() - index,
    {
        let ghost before = text_views(parts@.take(index as int));
        let ghost after = text_views(parts@.take(index + 1));
        assert(after.drop_last() =~= before);
        assert(after.last() == parts@[index as int]@);
        if index > 0 {
            text.append(separator);
        } else {
            assert(before.len() == 0);
            assert(text@ =~= Seq::<char>::empty());
        }
        text.append(parts[index].as_str());
        proof {
            if index == 0 {
                assert(text@ =~= after[0]);
            }
        }
        index = index + 1;
    }
    assert(parts@.take(parts@.len() as int) =~= parts@);
    text
}

/// The kind of status a check gives, whatever the model family.
#[derive(Clone, Copy, Debug, PartialEq, Eq, Structural)]
pub enum Inspected {
    NotInstalled,
    Ready,
    Corrupt,
    Failed,
}

/// What a check found becomes a status kind, the bytes shown as present
/// and a message; the problems of a corrupt model follow `corrupt_prefix`.
pub open spec fn inspection_spec(state: InstallState, total_bytes: u64, corrupt_prefix: Seq<char>) -> (Inspected, u64, Option<Seq<char>>) {
    match state {
        InstallState::NotInstalled => (Inspected::NotInstalled, 0, None),
        InstallState::Ready => (Inspected::Ready, total_bytes, None),
        InstallState::Corrupt(issues) => (
            Inspected::Corrupt,
            0,
            Some(corrupt_prefix + joined_with(text_views(issues@), "; "@)),
        ),
        InstallState::Unreadable(reason) => (Inspected::Failed, 0, Some(reason@)),
    }
}

pub open spec fn message_view(message: Option<String>) -> Option<Seq<char>> {
    match message {
        Some(text) => Some(text@),
        None => None,
    }
}

pub fn inspection(state: &InstallState, total_bytes: u64, corrupt_prefix: &str) -> (found: (Inspected, u64, Option<String>))
    ensures
        (found.0, found.1, message_view(found.2)) == inspection_spec(*state, total_bytes, corrupt_prefix@),
{
    match state {
        InstallState::NotInstalled => (Inspected::NotInstalled, 0, None),
        InstallState::Ready => (Inspected::Ready, total_bytes, None),
        InstallState::Corrupt(issues) => {
            let mut message = String::from_str(corrupt_prefix);
            message.append(join_texts(issues, "; ").as_str());
            (Inspected::Corrupt, 0, Some(message))
        },
        InstallState::Unreadable(reason) => (Inspected::Failed, 0, Some(reason.clone())),
    }
}

/// The product profile and description of a speech model. The default and
/// the multilingual model are named by the model manager.
pub open spec fn product_metadata_spec(model_id: Seq<char>, default_model_id: Seq<char>, multilingual_model_id: Seq<char>) -> (Seq<char>, Seq<char>) {
    if model_id == default_model_id {
        ("Fast"@, "Lowest download and CPU cost for responsive captions on ordinary PCs."@)
    } else if model_id == "sherpa-zipformer-en-standard-2023-06-26"@ {
        (
            "Balanced"@,
            "A larger streaming model with more capacity while remaining comfortably real-time in local tests."@,
        )
    } else if model_id == "sherpa-zipformer-en-gigaspeech-2023-06-21"@ {
        (
            "Enhanced"@,
            "The broadest English option, trained on LibriSpeech and GigaSpeech for a better chance on varied speech."@,
        )
    } else if model_id == "sherpa-zipformer-zh-14m-2023-02-23"@ {
        ("Chinese · Small"@, "A low-footprint 14M streaming model for responsive Mandarin captions."@)
    } else if model_id == "sherpa-zipformer-fr-2023-04-14"@ {
        (
            "French · Compact"@,
            "A dedicated streaming French model with much lower resource use than Nemotron."@,
        )
    } else if model_id == "sherpa-zipformer-ko-2024-06-16"@ {
        (
            "Korean · Compact"@,
            "A dedicated streaming Korean model with lower resource use than Nemotron."@,
        )
    } else if model_id == "sherpa-zipformer-bn-vosk-2026-02-09"@ {
        (
            "Bengali · Compact"@,
            "A dedicated streaming Bengali model for local, lower-resource captions."@,
        )
    } else if model_id == multilingual_model_id {
        (
            "Multilingual"@,
            "A high-resource 600M-parameter CPU model covering 28 languages plus automatic detection. Expect about 1 GB of app memory; broad-coverage languages and automatic detection may be less accurate."@,
        )
    } else {
        ("Speech"@, "Local streaming captions."@)
    }
}

pub fn product_metadata(model_id: &str, default_model_id: &str, multilingual_model_id: &str) -> (metadata: (&'static str, &'static str))
    ensures
        (metadata.0@, metadata.1@) == product_metadata_spec(model_id@, default_model_id@, multilingual_model_id@),
{
    if str_eq(model_id, default_model_id) {
        ("Fast", "Lowest download and CPU cost for responsive captions on ordinary PCs.")
    } else if str_eq(model_id, "sherpa-zipformer-en-standard-2023-06-26") {
        (
            "Balanced",
            "A larger streaming model with more capacity while remaining comfortably real-time in local tests.",
        )
    } else if str_eq(model_id, "sherpa-zipformer-en-gigaspeech-2023-06-21") {
        (
            "Enhanced",
            "The broadest English option, trained on LibriSpeech and GigaSpeech for a better chance on varied speech.",
        )
    } else if str_eq(model_id, "sherpa-zipformer-zh-14m-2023-02-23") {
        ("Chinese · Small", "A low-footprint 14M streaming model for responsive Mandarin captions.")
    } else if str_eq(model_id, "sherpa-zipformer-fr-2023-04-14") {
        (
            "French · Compact",
            "A dedicated streaming French model with much lower resource use than Nemotron.",
        )
    } else if str_eq(model_id, "sherpa-zipformer-ko-2024-06-16") {
        (
            "Korean · Compact",
            "A dedicated streaming Korean model with lower resource use than Nemotron.",
        )
    } else if str_eq(model_id, "sherpa-zipformer-bn-vosk-2026-02-09") {
        (
            "Bengali · Compact",
            "A dedicated streaming Bengali model for local, lower-resource captions.",
        )
    } else if str_eq(model_id, multilingual_model_id) {
        (
            "Multilingual",
            "A high-resource 600M-parameter CPU model covering 28 languages plus automatic detection. Expect about 1 GB of app memory; broad-coverage languages and automatic detection may be less accurate.",
        )
    } else {
        ("Speech", "Local streaming captions.")
    }
}

fn clone_texts(texts: &Vec<String>) -> (copy: Vec<String>)
    ensures
        text_views(copy@) == text_views(texts@),
        copy@.len() == texts@.len(),
{
    let mut copy: Vec<String> = Vec::new();
    let mut index: usize = 0;
    while index < texts.len()
        invariant
            index <= texts@.len(),
            copy@.len() == index,
            forall|k: int| 0 <= k < index ==> (#[trigger] copy@[k])@ == texts@[k]@,
        decreases texts@.len() - index,
    {
        copy.push(texts[index].clone());
        index = index + 1;
    }
    assert(text_views(copy@) =~= text_views(texts@));
    copy
}

pub open spec fn speech_phase(inspected: Inspected) -> ModelPhase {
    match inspected {
        Inspected::NotInstalled => ModelPhase::NotInstalled,
        Inspected::Ready => ModelPhase::Ready,
        Inspected::Corrupt => ModelPhase::Corrupt,
        Inspected::Failed => ModelPhase::Failed,
    }
}

/// Whether `status` shows `manifest` as a check that found `state` gives it.
pub open spec fn speech_status_of(
    status: ModelStatus,
    manifest: ManifestSummary,
    state: InstallState,
    default_model_id: Seq<char>,
    multilingual_model_id: Seq<char>,
) -> bool {
    let found = inspection_spec(state, manifest.download_size_bytes, "The installed model is incomplete or corrupt: "@);
    let metadata = product_metadata_spec(manifest.id@, default_model_id, multilingual_model_id);
    &&& status.phase == speech_phase(found.0)
    &&& status.model_id@ == manifest.id@
    &&& status.display_name@ == manifest.display_name@
    &&& status.profile@ == metadata.0
    &&& status.description@ == metadata.1
    &&& text_views(status.languages@) == text_views(manifest.languages@)
    &&& status.downloaded_bytes == found.1
    &&& status.total_bytes == manifest.download_size_bytes
    &&& message_view(status.message) == found.2
}

/// The status of a speech model whose check found `state`.
pub fn speech_model_status(
    manifest: &ManifestSummary,
    state: &InstallState,
    default_model_id: &str,
    multilingual_model_id: &str,
) -> (status: ModelStatus)
    ensures
        speech_status_of(status, *manifest, *state, default_model_id@, multilingual_model_id@),
{
    let (inspected, downloaded_bytes, message) = inspection(
        state,
        manifest.download_size_bytes,
        "The installed model is incomplete or corrupt: ",
    );
    let (profile, description) = product_metadata(
        manifest.id.as_str(),
        default_model_id,
        multilingual_model_id,
    );
    let phase = match inspected {
        Inspected::NotInstalled => ModelPhase::NotInstalled,
        Inspected::Ready => ModelPhase::Ready,
        Inspected::Corrupt => ModelPhase::Corrupt,
        Inspected::Failed => ModelPhase::Failed,
    };
    ModelStatus {
        phase,
        model_id: manifest.id.clone(),
        display_name: manifest.display_name.clone(),
        profile: String::from_str(profile),
        description: String::from_str(description),
        languages: clone_texts(&manifest.languages),
        downloaded_bytes,
        total_bytes: manifest.download_size_bytes,
        message,
    }
}

/// The speech catalog after checking each manifest's model: the model at
/// each position shows what the check of that manifest found.
pub fn inspect_speech_catalog(
    selected_model_id: String,
    manifests: &Vec<ManifestSummary>,
    states: &Vec<InstallState>,
    default_model_id: &str,
    multilingual_model_id: &str,
) -> (catalog: ModelCatalogStatus)
    requires
        manifests@.len() == states@.len(),
    ensures
        catalog.selected_model_id == selected_model_id,
        catalog.models@.len() == manifests@.len(),
        forall|i: int|
            0 <= i < manifests@.len() ==> speech_status_of(
                #[trigger] catalog.models@[i],
                manifests@[i],
                states@[i],
                default_model_id@,
                multilingual_model_id@,
            ),
{
    let mut models: Vec<ModelStatus> = Vec::new();
    let mut index: usize = 0;
    while index < manifests.len()
        invariant
            manifests@.len() == states@.len(),
            index <= manifests@.len(),
            models@.len() == index,
            forall|k: int|
                0 <= k < index ==> speech_status_of(
                    #[trigger] models@[k],
                    manifests@[k],
                    states@[k],
                    default_model_id@,
                    multilingual_model_id@,
                ),
        decreases manifests@.len() - index,
    {
        models.push(
            speech_model_status(&manifests[index], &states[index], default_model_id, multilingual_model_id),
        );
        index = index + 1;
    }
    ModelCatalogStatus { selected_model_id, models }
}

pub open spec fn translation_phase(inspected: Inspected) -> TranslationModelPhase {
    match inspected {
        Inspected::NotInstalled => TranslationModelPhase::NotInstalled,
        Inspected::Ready => TranslationModelPhase::Ready,
        Inspected::Corrupt => TranslationModelPhase::Corrupt,
        Inspected::Failed => TranslationModelPhase::Failed,
    }
}

/// Whether `status` shows the translation model of `manifest` as a check
/// that found `state` gives it.
pub open spec fn translation_status_of(status: TranslationStorageStatus, manifest: ManifestSummary, state: InstallState) -> bool {
    let found = inspection_spec(state, manifest.download_size_bytes, "The native model is incomplete or corrupt: "@);
    &&& status.phase == translation_phase(found.0)
    &&& status.storage_id@ == manifest.id@
    &&& status.downloaded_bytes == found.1
    &&& status.total_bytes == manifest.download_size_bytes
    &&& message_view(status.message) == found.2
}

/// The status of a native translation model whose check found `state`.
pub fn translation_model_status(manifest: &ManifestSummary, state: &InstallState) -> (status: TranslationStorageStatus)
    ensures
        translation_status_of(status, *manifest, *state),
{
    let (inspected, downloaded_bytes, message) = inspection(
        state,
        manifest.download_size_bytes,
        "The native model is incomplete or corrupt: ",
    );
    let phase = match inspected {
        Inspected::NotInstalled => TranslationModelPhase::NotInstalled,
        Inspected::Ready => TranslationModelPhase::Ready,
        Inspected::Corrupt => TranslationModelPhase::Corrupt,
        Inspected::Failed => TranslationModelPhase::Failed,
    };
    TranslationStorageStatus {
        phase,
        storage_id: manifest.id.clone(),
        downloaded_bytes,
        total_bytes: manifest.download_size_bytes,
        message,
    }
}

/// The translation catalog after checking each manifest's model.
pub fn inspect_translation_catalog(manifests: &Vec<ManifestSummary>, states: &Vec<InstallState>) -> (catalog: TranslationStorageCatalog)
    requires
        manifests@.len() == states@.len(),
    ensures
        catalog.models@.len() == manifests@.len(),
        forall|i: int|
            0 <= i < manifests@.len() ==> translation_status_of(
                #[trigger] catalog.models@[i],
                manifests@[i],
                states@[i],
            ),
{
    let mut models: Vec<TranslationStorageStatus> = Vec::new();
    let mut index: usize = 0;
    while index < manifests.len()
        invariant
            manifests@.len() == states@.len(),
            index <= manifests@.len(),
            models@.len() == index,
            forall|k: int|
                0 <= k < index ==> translation_status_of(#[trigger] models@[k], manifests@[k], states@[k]),
        decreases manifests@.len() - index,
    {
        models.push(translation_model_status(&manifests[index], &states[index]));
        index = index + 1;
    }
    TranslationStorageCatalog { models }
}

pub open spec fn visual_phase(inspected: Inspected) -> VisualModelPhase {
    match inspected {
        Inspected::NotInstalled => VisualModelPhase::NotInstalled,
        Inspected::Ready => VisualModelPhase::Ready,
        Inspected::Corrupt => VisualModelPhase::Corrupt,
        Inspected::Failed => VisualModelPhase::Failed,
    }
}

/// Whether `status` shows the visual recognition model of `manifest` as a
/// check that found `state` gives it.
pub open spec fn visual_status_of(status: VisualModelStatus, manifest: ManifestSummary, state: InstallState) -> bool {
    let found = inspection_spec(state, manifest.download_size_bytes, Seq::empty());
    &&& status.phase == visual_phase(found.0)
    &&& status.model_id@ == manifest.id@
    &&& status.display_name@ == manifest.display_name@
    &&& status.profile@ == "Visual OCR · Balanced"@
    &&& status.description@
        == "Detects and recognizes text already visible in applications, video, games, and display regions. One unified local pack covers the languages listed here."@
    &&& text_views(status.languages@) == text_views(manifest.languages@)
    &&& status.downloaded_bytes == found.1
    &&& status.total_bytes == manifest.download_size_bytes
    &&& message_view(status.message) == found.2
}

/// The catalog of the visual recognition model whose check found `state`.
pub fn inspect_visual_catalog(manifest: &ManifestSummary, state: &InstallState) -> (catalog: VisualModelCatalogStatus)
    ensures
        catalog.models@.len() == 1,
        visual_status_of(catalog.models@[0], *manifest, *state),
{
    let (inspected, downloaded_bytes, message) = inspection(state, manifest.download_size_bytes, "");
    proof {
        reveal_strlit("");
        assert(""@ =~= Seq::<char>::empty());
    }
    let phase = match inspected {
        Inspected::NotInstalled => VisualModelPhase::NotInstalled,
        Inspected::Ready => VisualModelPhase::Ready,
        Inspected::Corrupt => VisualModelPhase::Corrupt,
        Inspected::Failed => VisualModelPhase::Failed,
    };
    let status = VisualModelStatus {
        phase,
        model_id: manifest.id.clone(),
        display_name: manifest.display_name.clone(),
        profile: String::from_str("Visual OCR · Balanced"),
        description: String::from_str(
            "Detects and recognizes text already visible in applications, video, games, and display regions. One unified local pack covers the languages listed here.",
        ),
        languages: clone_texts(&manifest.languages),
        downloaded_bytes,
        total_bytes: manifest.download_size_bytes,
        message,
    };
    let mut models: Vec<VisualModelStatus> = Vec::new();
    models.push(status);
    VisualModelCatalogStatus { models }
}

} // verus!
