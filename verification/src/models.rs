//! The catalogs of local models that the settings screen shows: speech
//! models, the visual recognition model and native translation models, and
//! the rules that read and update them.

use vstd::prelude::*;
use vstd::string::*;

use crate::speech::{lists_language, str_eq};

verus! {

#[derive(Clone, Copy, Debug, Default, PartialEq, Eq, Structural)]
pub enum ModelPhase {
    #[default]
    NotInstalled,
    Checking,
    Downloading,
    Ready,
    Corrupt,
    Failed,
}

#[derive(Clone, Debug)]
pub struct ModelStatus {
    pub phase: ModelPhase,
    pub model_id: String,
    pub display_name: String,
    pub profile: String,
    pub description: String,
    pub languages: Vec<String>,
    pub downloaded_bytes: u64,
    pub total_bytes: u64,
    pub message: Option<String>,
}

#[derive(Clone, Debug)]
pub struct ModelCatalogStatus {
    pub selected_model_id: String,
    pub models: Vec<ModelStatus>,
}

/// The index of the first of `items` whose `key` is `id`.
pub open spec fn first_with<T>(items: Seq<T>, key: spec_fn(T) -> Seq<char>, id: Seq<char>) -> Option<int>
    decreases items.len(),
{
    if items.len() == 0 {
        None
    } else if key(items.last()) == id && first_with(items.drop_last(), key, id) is None {
        Some(items.len() - 1)
    } else {
        first_with(items.drop_last(), key, id)
    }
}

/// The index of the first speech model whose identifier is `id`.
pub open spec fn speech_model_index(models: Seq<ModelStatus>, id: Seq<char>) -> Option<int> {
    first_with(models, |model: ModelStatus| model.model_id@, id)
}

/// What starting captions in `language` with the selected speech model
/// gives: the model's identifier, or the message that refuses it.
pub open spec fn selected_speech_model(catalog: ModelCatalogStatus, language: Seq<char>) -> Result<Seq<char>, Seq<char>> {
    match speech_model_index(catalog.models@, catalog.selected_model_id@) {
        None => Err("The selected speech model is unavailable."@),
        Some(index) => {
            let model = catalog.models@[index];
            if model.phase != ModelPhase::Ready {
                Err("Install "@ + model.display_name@ + " before starting captions."@)
            } else if !(exists|i: int|
                0 <= i < model.languages@.len() && #[trigger] model.languages@[i]@ == language) {
                Err(model.display_name@ + " does not support the selected spoken language."@)
            } else {
                Ok(model.model_id@)
            }
        },
    }
}

pub proof fn first_with_scan<T>(items: Seq<T>, key: spec_fn(T) -> Seq<char>, id: Seq<char>, count: int)
    requires
        0 <= count <= items.len(),
        forall|j: int| 0 <= j < count ==> key(#[trigger] items[j]) != id,
    ensures
        count < items.len() && key(items[count]) == id ==> first_with(items, key, id) == Some(
            count,
        ),
        count == items.len() ==> first_with(items, key, id) is None,
    decreases items.len(),
{
    if items.len() > 0 {
        let shorter = items.drop_last();
        if count < items.len() {
            first_with_scan(shorter, key, id, count);
        } else {
            first_with_scan(shorter, key, id, count - 1);
        }
    }
}

fn find_speech_model(models: &Vec<ModelStatus>, id: &str) -> (found: Option<usize>)
    ensures
        speech_model_index(models@, id@) == match found {
            Some(i) => Some(i as int),
            None => None,
        },
        found matches Some(i) ==> i < models@.len(),
{
    let mut index: usize = 0;
    while index < models.len()
        invariant
            index <= models@.len(),
            forall|j: int| 0 <= j < index ==> (#[trigger] models@[j]).model_id@ != id@,
        decreases models@.len() - index,
    {
        if str_eq(models[index].model_id.as_str(), id) {
            proof {
                first_with_scan(models@, |model: ModelStatus| model.model_id@, id@, index as int);
            }
            return Some(index);
        }
        index = index + 1;
    }
    proof {
        first_with_scan(models@, |model: ModelStatus| model.model_id@, id@, index as int);
    }
    None
}

/// The identifier of the selected speech model, when it is installed and
/// transcribes `language`; otherwise the message that says why not.
pub fn selected_model_id(catalog: &ModelCatalogStatus, language: &str) -> (result: Result<String, String>)
    ensures
        match selected_speech_model(*catalog, language@) {
            Ok(id) => result matches Ok(text) && text@ == id,
            Err(message) => result matches Err(text) && text@ == message,
        },
{
    let index = match find_speech_model(&catalog.models, catalog.selected_model_id.as_str()) {
        Some(index) => index,
        None => return Err(String::from_str("The selected speech model is unavailable.")),
    };
    let model = &catalog.models[index];
    if model.phase != ModelPhase::Ready {
        let mut message = String::from_str("Install ");
        message.append(model.display_name.as_str());
        message.append(" before starting captions.");
        return Err(message);
    }
    if !lists_language(&model.languages, &String::from_str(language)) {
        let mut message = model.display_name.clone();
        message.append(" does not support the selected spoken language.");
        return Err(message);
    }
    Ok(model.model_id.clone())
}

impl ModelCatalogStatus {
    /// Records a new phase, download progress and message for the model
    /// `model_id`; the progress never exceeds the model's size. Returns
    /// whether the catalog lists that model.
    pub fn update_model(
        &mut self,
        model_id: &str,
        phase: ModelPhase,
        downloaded_bytes: u64,
        message: Option<String>,
    ) -> (updated: bool)
        ensures
            final(self).selected_model_id == old(self).selected_model_id,
            match speech_model_index(old(self).models@, model_id@) {
                None => !updated && final(self).models@ == old(self).models@,
                Some(index) => {
                    let model = old(self).models@[index];
                    &&& updated
                    &&& final(self).models@ == old(self).models@.update(
                        index,
                        ModelStatus {
                            phase,
                            downloaded_bytes: if downloaded_bytes <= model.total_bytes {
                                downloaded_bytes
                            } else {
                                model.total_bytes
                            },
                            message,
                            ..model
                        },
                    )
                },
            },
    {
        let index = match find_speech_model(&self.models, model_id) {
            Some(index) => index,
            None => return false,
        };
        let mut model = self.models.remove(index);
        model.phase = phase;
        model.downloaded_bytes = if downloaded_bytes <= model.total_bytes {
            downloaded_bytes
        } else {
            model.total_bytes
        };
        model.message = message;
        self.models.insert(index, model);
        true
    }
}

/// The catalog shown when inspecting the installed speech models failed:
/// `fallback` with `selected_model_id` selected and that model, if listed,
/// failed with `message`.
pub fn inspection_failure_catalog(
    fallback: ModelCatalogStatus,
    selected_model_id: String,
    message: String,
) -> (catalog: ModelCatalogStatus)
    ensures
        catalog.selected_model_id == selected_model_id,
        match speech_model_index(fallback.models@, selected_model_id@) {
            None => catalog.models@ == fallback.models@,
            Some(index) => catalog.models@ == fallback.models@.update(
                index,
                ModelStatus {
                    phase: ModelPhase::Failed,
                    message: Some(message),
                    ..fallback.models@[index]
                },
            ),
        },
{
    let mut catalog = ModelCatalogStatus { selected_model_id, models: fallback.models };
    match find_speech_model(&catalog.models, catalog.selected_model_id.as_str()) {
        Some(index) => {
            let mut model = catalog.models.remove(index);
            model.phase = ModelPhase::Failed;
            model.message = Some(message);
            catalog.models.insert(index, model);
        },
        None => {},
    }
    catalog
}

#[derive(Clone, Copy, Debug, Default, PartialEq, Eq, Structural)]
pub enum VisualModelPhase {
    #[default]
    NotInstalled,
    Checking,
    Downloading,
    Ready,
    Corrupt,
    Failed,
}

#[derive(Clone, Debug)]
pub struct VisualModelStatus {
    pub phase: VisualModelPhase,
    pub model_id: String,
    pub display_name: String,
    pub profile: String,
    pub description: String,
    pub languages: Vec<String>,
    pub downloaded_bytes: u64,
    pub total_bytes: u64,
    pub message: Option<String>,
}

#[derive(Clone, Debug)]
pub struct VisualModelCatalogStatus {
    pub models: Vec<VisualModelStatus>,
}

/// The index of the first visual model whose identifier is `id`.
pub open spec fn visual_model_index(models: Seq<VisualModelStatus>, id: Seq<char>) -> Option<int> {
    first_with(models, |model: VisualModelStatus| model.model_id@, id)
}

fn find_visual_model(models: &Vec<VisualModelStatus>, id: &str) -> (found: Option<usize>)
    ensures
        visual_model_index(models@, id@) == match found {
            Some(i) => Some(i as int),
            None => None,
        },
        found matches Some(i) ==> i < models@.len(),
{
    let mut index: usize = 0;
    while index < models.len()
        invariant
            index <= models@.len(),
            forall|j: int| 0 <= j < index ==> (#[trigger] models@[j]).model_id@ != id@,
        decreases models@.len() - index,
    {
        if str_eq(models[index].model_id.as_str(), id) {
            proof {
                first_with_scan(models@, |model: VisualModelStatus| model.model_id@, id@, index as int);
            }
            return Some(index);
        }
        index = index + 1;
    }
    proof {
        first_with_scan(models@, |model: VisualModelStatus| model.model_id@, id@, index as int);
    }
    None
}

/// Whether starting visual translation with the model `model_id` may go on:
/// the model must be listed and installed.
pub open spec fn visual_model_readiness(catalog: VisualModelCatalogStatus, model_id: Seq<char>) -> Result<(), Seq<char>> {
    match visual_model_index(catalog.models@, model_id) {
        None => Err("The visual recognition model is unavailable."@),
        Some(index) => if catalog.models@[index].phase != VisualModelPhase::Ready {
            Err(
                "Install "@ + catalog.models@[index].display_name@
                    + " in Settings before starting visual translation."@,
            )
        } else {
            Ok(())
        },
    }
}

/// Checks that the visual model `model_id` is installed, or says what the
/// user must do first.
pub fn ready_visual_model(catalog: &VisualModelCatalogStatus, model_id: &str) -> (result: Result<(), String>)
    ensures
        match visual_model_readiness(*catalog, model_id@) {
            Ok(()) => result is Ok,
            Err(message) => result matches Err(text) && text@ == message,
        },
{
    let index = match find_visual_model(&catalog.models, model_id) {
        Some(index) => index,
        None => return Err(String::from_str("The visual recognition model is unavailable.")),
    };
    if catalog.models[index].phase != VisualModelPhase::Ready {
        let mut message = String::from_str("Install ");
        message.append(catalog.models[index].display_name.as_str());
        message.append(" in Settings before starting visual translation.");
        return Err(message);
    }
    Ok(())
}

impl VisualModelCatalogStatus {
    /// Records a new phase, download progress and message for the visual
    /// model `model_id`, when the catalog lists it.
    pub fn update_model(
        &mut self,
        model_id: &str,
        phase: VisualModelPhase,
        downloaded_bytes: u64,
        message: Option<String>,
    )
        ensures
            match visual_model_index(old(self).models@, model_id@) {
                None => final(self).models@ == old(self).models@,
                Some(index) => final(self).models@ == old(self).models@.update(
                    index,
                    VisualModelStatus { phase, downloaded_bytes, message, ..old(self).models@[index] },
                ),
            },
    {
        match find_visual_model(&self.models, model_id) {
            Some(index) => {
                let mut model = self.models.remove(index);
                model.phase = phase;
                model.downloaded_bytes = downloaded_bytes;
                model.message = message;
                self.models.insert(index, model);
            },
            None => {},
        }
    }
}

/// The visual catalog shown when inspecting the installed model failed:
/// `fallback` with its first model, if any, failed with `message`.
pub fn visual_inspection_failure(fallback: VisualModelCatalogStatus, message: String) -> (catalog: VisualModelCatalogStatus)
    ensures
        fallback.models@.len() == 0 ==> catalog.models@ == fallback.models@,
        fallback.models@.len() > 0 ==> catalog.models@ == fallback.models@.update(
            0,
            VisualModelStatus {
                phase: VisualModelPhase::Failed,
                message: Some(message),
                ..fallback.models@[0]
            },
        ),
{
    let mut catalog = fallback;
    if catalog.models.len() > 0 {
        let mut model = catalog.models.remove(0);
        model.phase = VisualModelPhase::Failed;
        model.message = Some(message);
        catalog.models.insert(0, model);
    }
    catalog
}

#[derive(Clone, Copy, Debug, Default, PartialEq, Eq, Structural)]
pub enum TranslationModelPhase {
    #[default]
    NotInstalled,
    Checking,
    Downloading,
    Ready,
    Corrupt,
    Failed,
}

#[derive(Clone, Debug)]
pub struct TranslationStorageStatus {
    pub phase: TranslationModelPhase,
    pub storage_id: String,
    pub downloaded_bytes: u64,
    pub total_bytes: u64,
    pub message: Option<String>,
}

#[derive(Clone, Debug, Default)]
pub struct TranslationStorageCatalog {
    pub models: Vec<TranslationStorageStatus>,
}

/// The index of the first translation model stored under `id`.
pub open spec fn translation_model_index(models: Seq<TranslationStorageStatus>, id: Seq<char>) -> Option<int> {
    first_with(models, |model: TranslationStorageStatus| model.storage_id@, id)
}

fn find_translation_model(models: &Vec<TranslationStorageStatus>, id: &str) -> (found: Option<usize>)
    ensures
        translation_model_index(models@, id@) == match found {
            Some(i) => Some(i as int),
            None => None,
        },
        found matches Some(i) ==> i < models@.len(),
{
    let mut index: usize = 0;
    while index < models.len()
        invariant
            index <= models@.len(),
            forall|j: int| 0 <= j < index ==> (#[trigger] models@[j]).storage_id@ != id@,
        decreases models@.len() - index,
    {
        if str_eq(models[index].storage_id.as_str(), id) {
            proof {
                first_with_scan(
                    models@,
                    |model: TranslationStorageStatus| model.storage_id@,
                    id@,
                    index as int,
                );
            }
            return Some(index);
        }
        index = index + 1;
    }
    proof {
        first_with_scan(models@, |model: TranslationStorageStatus| model.storage_id@, id@, index as int);
    }
    None
}

impl TranslationStorageCatalog {
    /// Whether a model stored under `storage_id` is installed and verified,
    /// so that its artifacts may be served.
    pub fn is_ready(&self, storage_id: &str) -> (ready: bool)
        ensures
            ready == exists|i: int|
                0 <= i < self.models@.len() && (#[trigger] self.models@[i]).storage_id@
                    == storage_id@ && self.models@[i].phase == TranslationModelPhase::Ready,
    {
        let mut index: usize = 0;
        while index < self.models.len()
            invariant
                index <= self.models@.len(),
                forall|j: int|
                    0 <= j < index ==> !((#[trigger] self.models@[j]).storage_id@ == storage_id@
                        && self.models@[j].phase == TranslationModelPhase::Ready),
            decreases self.models@.len() - index,
        {
            if self.models[index].phase == TranslationModelPhase::Ready && str_eq(
                self.models[index].storage_id.as_str(),
                storage_id,
            ) {
                return true;
            }
            index = index + 1;
        }
        false
    }

    /// Records a new phase, download progress and message for the model
    /// stored under `storage_id`; the progress never exceeds the model's
    /// size. Returns whether the catalog lists that model.
    pub fn update_model(
        &mut self,
        storage_id: &str,
        phase: TranslationModelPhase,
        downloaded_bytes: u64,
        message: Option<String>,
    ) -> (updated: bool)
        ensures
            match translation_model_index(old(self).models@, storage_id@) {
                None => !updated && final(self).models@ == old(self).models@,
                Some(index) => {
                    let model = old(self).models@[index];
                    &&& updated
                    &&& final(self).models@ == old(self).models@.update(
                        index,
                        TranslationStorageStatus {
                            phase,
                            downloaded_bytes: if downloaded_bytes <= model.total_bytes {
                                downloaded_bytes
                            } else {
                                model.total_bytes
                            },
                            message,
                            ..model
                        },
                    )
                },
            },
    {
        let index = match find_translation_model(&self.models, storage_id) {
            Some(index) => index,
            None => return false,
        };
        let mut model = self.models.remove(index);
        model.phase = phase;
        model.downloaded_bytes = if downloaded_bytes <= model.total_bytes {
            downloaded_bytes
        } else {
            model.total_bytes
        };
        model.message = message;
        self.models.insert(index, model);
        true
    }

    /// The catalog shown when inspecting the native translation models
    /// failed: every model failed with `message` and nothing downloaded.
    pub fn inspection_failure(&self, message: String) -> (catalog: TranslationStorageCatalog)
        ensures
            catalog.models@.len() == self.models@.len(),
            forall|i: int|
                0 <= i < self.models@.len() ==> #[trigger] catalog.models@[i] == (
                TranslationStorageStatus {
                    phase: TranslationModelPhase::Failed,
                    downloaded_bytes: 0,
                    message: Some(message),
                    ..self.models@[i]
                }),
    {
        let mut models: Vec<TranslationStorageStatus> = Vec::new();
        let mut index: usize = 0;
        while index < self.models.len()
            invariant
                index <= self.models@.len(),
                models@.len() == index,
                forall|i: int|
                    0 <= i < index ==> #[trigger] models@[i] == (TranslationStorageStatus {
                        phase: TranslationModelPhase::Failed,
                        downloaded_bytes: 0,
                        message: Some(message),
                        ..self.models@[i]
                    }),
            decreases self.models@.len() - index,
        {
            let model = &self.models[index];
            models.push(
                TranslationStorageStatus {
                    phase: TranslationModelPhase::Failed,
                    storage_id: model.storage_id.clone(),
                    downloaded_bytes: 0,
                    total_bytes: model.total_bytes,
                    message: Some(message.clone()),
                },
            );
            index = index + 1;
        }
        TranslationStorageCatalog { models }
    }
}

/// The kinds of local model whose installation the adapter manages.
#[derive(Clone, Copy, Debug, PartialEq, Eq, Structural)]
pub enum ModelFamily {
    Speech,
    Translation,
    Visual,
}

/// Why models of `family` cannot change while a session runs.
pub open spec fn session_refusal(family: ModelFamily) -> Seq<char> {
    match family {
        ModelFamily::Speech => "Stop captions and visual translation before changing local speech models."@,
        ModelFamily::Translation => "Stop captions or screen translation before changing translation models."@,
        ModelFamily::Visual => "Stop captions and visual translation before changing visual models."@,
    }
}

/// Why models of `family` cannot change while the installed ones are
/// being checked.
pub open spec fn inspection_refusal(family: ModelFamily) -> Seq<char> {
    match family {
        ModelFamily::Speech => "Wait for Prollyglot to finish checking the installed speech models."@,
        ModelFamily::Translation => "Wait for Prollyglot to finish checking native translation models."@,
        ModelFamily::Visual => "Wait for Prollyglot to finish checking the visual recognition model."@,
    }
}

/// Why a model of `family` cannot be installed while another downloads.
pub open spec fn download_refusal(family: ModelFamily) -> Seq<char> {
    match family {
        ModelFamily::Speech => "Another speech model is already downloading."@,
        ModelFamily::Translation => "Another translation model is already downloading."@,
        ModelFamily::Visual => "A visual recognition model is already downloading."@,
    }
}

/// Models may only change while no session runs.
pub fn require_stopped(family: ModelFamily, session_active: bool) -> (result: Result<(), String>)
    ensures
        result is Ok <==> !session_active,
        result matches Err(message) ==> message@ == session_refusal(family),
{
    if !session_active {
        return Ok(());
    }
    Err(
        match family {
            ModelFamily::Speech => String::from_str(
                "Stop captions and visual translation before changing local speech models.",
            ),
            ModelFamily::Translation => String::from_str(
                "Stop captions or screen translation before changing translation models.",
            ),
            ModelFamily::Visual => String::from_str(
                "Stop captions and visual translation before changing visual models.",
            ),
        },
    )
}

/// Models may only change once the installed ones have been checked.
pub fn require_catalog_ready(family: ModelFamily, inspecting: bool) -> (result: Result<(), String>)
    ensures
        result is Ok <==> !inspecting,
        result matches Err(message) ==> message@ == inspection_refusal(family),
{
    if !inspecting {
        return Ok(());
    }
    Err(
        match family {
            ModelFamily::Speech => String::from_str(
                "Wait for Prollyglot to finish checking the installed speech models.",
            ),
            ModelFamily::Translation => String::from_str(
                "Wait for Prollyglot to finish checking native translation models.",
            ),
            ModelFamily::Visual => String::from_str(
                "Wait for Prollyglot to finish checking the visual recognition model.",
            ),
        },
    )
}

/// Only one model of a family downloads at a time.
pub fn require_no_download(family: ModelFamily, downloading: bool) -> (result: Result<(), String>)
    ensures
        result is Ok <==> !downloading,
        result matches Err(message) ==> message@ == download_refusal(family),
{
    if !downloading {
        return Ok(());
    }
    Err(
        match family {
            ModelFamily::Speech => String::from_str("Another speech model is already downloading."),
            ModelFamily::Translation => String::from_str(
                "Another translation model is already downloading.",
            ),
            ModelFamily::Visual => String::from_str("A visual recognition model is already downloading."),
        },
    )
}

/// The visual recognition model may only change once it has been checked,
/// while it is not downloading, and while no session runs.
pub fn require_model_changes_allowed(inspecting: bool, installing: bool, session_active: bool) -> (result: Result<(), String>)
    ensures
        result is Ok <==> !inspecting && !installing && !session_active,
        inspecting ==> (result matches Err(message) && message@ == inspection_refusal(
            ModelFamily::Visual,
        )),
        !inspecting && installing ==> (result matches Err(message) && message@
            == "Wait for the visual recognition model download to finish."@),
        !inspecting && !installing && session_active ==> (result matches Err(message) && message@
            == session_refusal(ModelFamily::Visual)),
{
    require_catalog_ready(ModelFamily::Visual, inspecting)?;
    if installing {
        return Err(String::from_str("Wait for the visual recognition model download to finish."));
    }
    require_stopped(ModelFamily::Visual, session_active)
}

/// The least time, in milliseconds, between two download progress updates.
pub const PROGRESS_PUBLISH_INTERVAL_MILLIS: u64 = 100;

/// Whether download progress is published now: at most every
/// `PROGRESS_PUBLISH_INTERVAL_MILLIS`, and always once the download is
/// complete.
pub fn should_publish_progress(elapsed_millis: u64, completed_bytes: u64, total_bytes: u64) -> (publish: bool)
    ensures
        publish == (elapsed_millis >= PROGRESS_PUBLISH_INTERVAL_MILLIS || completed_bytes == total_bytes),
{
    elapsed_millis >= PROGRESS_PUBLISH_INTERVAL_MILLIS || completed_bytes == total_bytes
}

/// The status message while the artifact `role` downloads.
pub fn progress_message(role: &str) -> (message: String)
    ensures
        message@ == "Downloading "@ + role@ + "…"@,
{
    let mut message = String::from_str("Downloading ");
    message.append(role);
    message.append("…");
    message
}

/// The status message while `name` downloads and is verified.
pub fn verifying_message(name: &str) -> (message: String)
    ensures
        message@ == "Downloading and verifying "@ + name@ + "…"@,
{
    let mut message = String::from_str("Downloading and verifying ");
    message.append(name);
    message.append("…");
    message
}
} // verus!
