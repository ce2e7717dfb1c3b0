//! Backend-neutral contracts for local streaming speech recognition, and the
//! stream bookkeeping of the sherpa-onnx online adapter.

use std::collections::BTreeMap;
use std::path::PathBuf;
use vstd::prelude::*;
use vstd::string::*;

use crate::text::{decimal, decimal_string};

verus! {

#[verifier::external_type_specification]
#[verifier::external_body]
pub struct ExPathBuf(PathBuf);

/// `PathBuf::clone` copies the path: the clone is the same path.
pub assume_specification[ <PathBuf as Clone>::clone ](path: &PathBuf) -> (copy: PathBuf)
    ensures
        copy == *path,
;

pub const ENGLISH_LANGUAGE_TAG: &'static str = "en";

#[derive(Clone, Copy, Debug, PartialEq, Eq, Structural)]
pub enum InferenceDevice {
    Cpu,
    Gpu,
}

#[derive(Clone, Debug, PartialEq, Eq)]
pub struct SpeechEngineInfo {
    pub id: String,
    pub name: String,
    pub languages: Vec<String>,
    pub streaming: bool,
    pub supported_devices: Vec<InferenceDevice>,
}

#[derive(Clone, Copy, Debug, PartialEq, Eq, Structural)]
pub enum EngineState {
    Unloaded,
    Loaded,
}

#[derive(Clone, Debug, PartialEq, Eq)]
pub struct ModelLocation {
    pub id: String,
    pub backend: String,
    pub languages: Vec<String>,
    pub directory: PathBuf,
    /// Resolved model artifacts keyed by backend-defined roles such as
    /// `encoder`, `decoder`, `joiner`, and `tokens`.
    pub artifacts: BTreeMap<String, PathBuf>,
}

#[derive(Debug, PartialEq, Eq)]
pub struct SpeechStreamConfig {
    pub sample_rate: u32,
    pub language: String,
}

impl Clone for SpeechStreamConfig {
    fn clone(&self) -> (copy: Self)
        ensures
            copy == *self,
    {
        SpeechStreamConfig { sample_rate: self.sample_rate, language: self.language.clone() }
    }
}

impl Default for SpeechStreamConfig {
    fn default() -> (config: Self)
        ensures
            config.sample_rate == 16_000,
            config.language@ == ENGLISH_LANGUAGE_TAG@,
    {
        SpeechStreamConfig { sample_rate: 16_000, language: String::from_str(ENGLISH_LANGUAGE_TAG) }
    }
}

#[derive(Clone, Debug, PartialEq, Eq)]
pub struct SpeechHypothesis {
    pub utterance_id: u64,
    pub text: String,
    pub start_micros: u64,
    pub end_micros: u64,
    pub language: String,
}

#[derive(Clone, Debug, PartialEq, Eq)]
pub enum SpeechEvent {
    Partial(SpeechHypothesis),
    Final(SpeechHypothesis),
}

#[derive(Clone, Copy, Debug, PartialEq, Eq, Structural)]
pub enum SpeechErrorKind {
    MissingModel,
    CorruptModel,
    UnsupportedLanguage,
    UnsupportedDevice,
    InvalidAudio,
    InsufficientMemory,
    BackendUnavailable,
    Internal,
}

#[derive(Debug, PartialEq, Eq)]
pub struct SpeechError {
    pub kind: SpeechErrorKind,
    pub message: String,
    pub recoverable: bool,
}

impl Clone for SpeechError {
    fn clone(&self) -> (copy: Self)
        ensures
            copy == *self,
    {
        SpeechError { kind: self.kind, message: self.message.clone(), recoverable: self.recoverable }
    }
}

impl SpeechError {
    pub fn new(kind: SpeechErrorKind, message: &str, recoverable: bool) -> (error: Self)
        ensures
            error.kind == kind,
            error.message@ == message@,
            error.recoverable == recoverable,
    {
        SpeechError { kind, message: String::from_str(message), recoverable }
    }

    /// The error's text, as its `Display` rendering gives it.
    pub fn to_string(&self) -> (text: String)
        ensures
            text@ == self.message@,
    {
        self.message.clone()
    }
}

#[derive(Clone, Copy, Debug, PartialEq, Eq, Structural)]
pub struct SherpaOnlineConfig {
    pub num_threads: i32,
}

impl Default for SherpaOnlineConfig {
    fn default() -> (config: Self)
        ensures
            config.num_threads == 2,
    {
        SherpaOnlineConfig { num_threads: 2 }
    }
}

impl SherpaOnlineConfig {
    /// The configuration the engine runs with: at least one thread.
    pub fn effective(self) -> (config: Self)
        ensures
            config.num_threads == if self.num_threads < 1 { 1 } else { self.num_threads },
    {
        SherpaOnlineConfig { num_threads: if self.num_threads < 1 { 1 } else { self.num_threads } }
    }
}

pub const TRANSDUCER_BACKEND: &'static str = "sherpa-onnx-online-transducer";

pub const NEMOTRON_BACKEND: &'static str = "sherpa-onnx-online-nemotron";

pub const NEMOTRON_MAX_UTTERANCE_MICROS: u64 = 4_000_000;

pub const STREAM_PREROLL_MILLIS: u32 = 800;

pub const NEMOTRON_LEFT_PADDING_MILLIS: u32 = 500;

pub const NEMOTRON_RIGHT_PADDING_MILLIS: u32 = 800;

#[derive(Clone, Copy, Debug, PartialEq, Eq, Structural)]
pub enum LoadedModelKind {
    Transducer,
    Nemotron,
}

/// Whether a Nemotron utterance has run long enough, with text, that the
/// adapter must close it even though the recognizer reported no endpoint.
pub open spec fn nemotron_boundary_spec(
    model_kind: LoadedModelKind,
    utterance_start_micros: Option<u64>,
    latest_audio_micros: u64,
    has_hypothesis: bool,
) -> bool {
    &&& model_kind == LoadedModelKind::Nemotron
    &&& has_hypothesis
    &&& utterance_start_micros matches Some(start) && latest_audio_micros >= start
        && latest_audio_micros - start >= NEMOTRON_MAX_UTTERANCE_MICROS
}

pub fn nemotron_boundary_reached(
    model_kind: LoadedModelKind,
    utterance_start_micros: Option<u64>,
    latest_audio_micros: u64,
    has_hypothesis: bool,
) -> (reached: bool)
    ensures
        reached == nemotron_boundary_spec(
            model_kind,
            utterance_start_micros,
            latest_audio_micros,
            has_hypothesis,
        ),
{
    model_kind == LoadedModelKind::Nemotron && has_hypothesis && match utterance_start_micros {
        Some(start) => latest_audio_micros.saturating_sub(start) >= NEMOTRON_MAX_UTTERANCE_MICROS,
        None => false,
    }
}

pub fn str_eq(a: &str, b: &str) -> (equal: bool)
    ensures
        equal == (a@ == b@),
{
    let a_len = a.unicode_len();
    let b_len = b.unicode_len();
    if a_len != b_len {
        return false;
    }
    let mut index: usize = 0;
    while index < a_len
        invariant
            a_len == a@.len(),
            b_len == b@.len(),
            a_len == b_len,
            index <= a_len,
            forall|i: int| 0 <= i < index ==> a@[i] == b@[i],
        decreases a_len - index,
    {
        if a.get_char(index) != b.get_char(index) {
            return false;
        }
        index = index + 1;
    }
    assert(a@ =~= b@);
    true
}

/// The model family that `backend` names, if the adapter supports it.
pub fn model_kind_for_backend(backend: &str) -> (kind: Option<LoadedModelKind>)
    ensures
        kind == (if backend@ == TRANSDUCER_BACKEND@ {
            Some(LoadedModelKind::Transducer)
        } else if backend@ == NEMOTRON_BACKEND@ {
            Some(LoadedModelKind::Nemotron)
        } else {
            None
        }),
{
    if str_eq(backend, TRANSDUCER_BACKEND) {
        Some(LoadedModelKind::Transducer)
    } else if str_eq(backend, NEMOTRON_BACKEND) {
        Some(LoadedModelKind::Nemotron)
    } else {
        None
    }
}

/// The number of silent samples that `milliseconds` of padding take at
/// `sample_rate`.
pub open spec fn padding_samples_spec(sample_rate: u32, milliseconds: u32) -> int {
    (sample_rate as int * milliseconds as int) / 1000
}

/// The silence fed before each utterance so that its first words are decoded.
pub fn leading_padding_samples(model_kind: LoadedModelKind, sample_rate: u32) -> (count: u64)
    ensures
        count == padding_samples_spec(
            sample_rate,
            if model_kind == LoadedModelKind::Transducer {
                STREAM_PREROLL_MILLIS
            } else {
                NEMOTRON_LEFT_PADDING_MILLIS
            },
        ),
{
    let millis: u64 = match model_kind {
        LoadedModelKind::Transducer => STREAM_PREROLL_MILLIS as u64,
        LoadedModelKind::Nemotron => NEMOTRON_LEFT_PADDING_MILLIS as u64,
    };
    assert((sample_rate as u64) * millis <= 0xffff_ffff * 1000) by (nonlinear_arith)
        requires
            millis <= 1000,
    ;
    (sample_rate as u64) * millis / 1000
}

/// The silence fed after an utterance ends; only Nemotron needs it.
pub fn trailing_padding_samples(model_kind: LoadedModelKind, sample_rate: u32) -> (count: u64)
    ensures
        count == if model_kind == LoadedModelKind::Nemotron {
            padding_samples_spec(sample_rate, NEMOTRON_RIGHT_PADDING_MILLIS)
        } else {
            0
        },
{
    if model_kind != LoadedModelKind::Nemotron {
        return 0;
    }
    let millis: u64 = NEMOTRON_RIGHT_PADDING_MILLIS as u64;
    assert((sample_rate as u64) * millis <= 0xffff_ffff * 1000) by (nonlinear_arith)
        requires
            millis <= 1000,
    ;
    (sample_rate as u64) * millis / 1000
}

/// The error for audio that does not fit the stream.
pub open spec fn invalid_audio_message(expected_rate: u32, rate: u32, samples: u64) -> Seq<char> {
    "expected non-empty "@ + decimal(expected_rate as nat) + " Hz mono audio, received "@
        + decimal(rate as nat) + " Hz with "@ + decimal(samples as nat) + " samples"@
}

/// Checks that a packet of `sample_count` samples at `sample_rate` fits a
/// stream opened at `expected_rate`.
pub fn check_audio_packet(expected_rate: u32, sample_rate: u32, sample_count: u64) -> (result: Result<
    (),
    SpeechError,
>)
    ensures
        result is Ok <==> (sample_rate == expected_rate && sample_count > 0),
        result matches Err(error) ==> error.kind == SpeechErrorKind::InvalidAudio && error.recoverable
            && error.message@ == invalid_audio_message(expected_rate, sample_rate, sample_count),
{
    if sample_rate != expected_rate || sample_count == 0 {
        let mut message = String::from_str("expected non-empty ");
        message.append(decimal_string(expected_rate as u64).as_str());
        message.append(" Hz mono audio, received ");
        message.append(decimal_string(sample_rate as u64).as_str());
        message.append(" Hz with ");
        message.append(decimal_string(sample_count).as_str());
        message.append(" samples");
        return Err(SpeechError { kind: SpeechErrorKind::InvalidAudio, message, recoverable: true });
    }
    Ok(())
}

/// Whether `languages` lists `language`.
pub fn lists_language(languages: &Vec<String>, language: &String) -> (listed: bool)
    ensures
        listed == exists|i: int| 0 <= i < languages@.len() && #[trigger] languages@[i]@ == language@,
{
    let mut index: usize = 0;
    while index < languages.len()
        invariant
            index <= languages@.len(),
            forall|i: int| 0 <= i < index ==> #[trigger] languages@[i]@ != language@,
        decreases languages@.len() - index,
    {
        if str_eq(languages[index].as_str(), language.as_str()) {
            return true;
        }
        index = index + 1;
    }
    false
}

/// Checks a request to open a stream with `config` on an engine that
/// supports `languages` and has loaded a model of `loaded` kind, if any.
pub fn check_stream_request(
    config: &SpeechStreamConfig,
    languages: &Vec<String>,
    loaded: Option<LoadedModelKind>,
) -> (result: Result<LoadedModelKind, SpeechError>)
    ensures
        config.sample_rate == 0 || config.sample_rate > i32::MAX ==> (result matches Err(error)
            && error.kind == SpeechErrorKind::InvalidAudio && !error.recoverable
            && error.message@ == "speech stream sample rate must fit a positive 32-bit integer"@),
        0 < config.sample_rate <= i32::MAX && !(exists|i: int|
            0 <= i < languages@.len() && #[trigger] languages@[i]@ == config.language@) ==> (
        result matches Err(error) && error.kind == SpeechErrorKind::UnsupportedLanguage
            && error.recoverable && error.message@ == "the loaded model does not support "@
            + config.language@),
        0 < config.sample_rate <= i32::MAX && (exists|i: int|
            0 <= i < languages@.len() && #[trigger] languages@[i]@ == config.language@) ==> match loaded {
            Some(kind) => result == Ok::<LoadedModelKind, SpeechError>(kind),
            None => result matches Err(error) && error.kind == SpeechErrorKind::MissingModel
                && error.recoverable && error.message@
                == "load a speech model before starting transcription"@,
        },
{
    if config.sample_rate == 0 || config.sample_rate > 0x7fff_ffff {
        return Err(
            SpeechError::new(
                SpeechErrorKind::InvalidAudio,
                "speech stream sample rate must fit a positive 32-bit integer",
                false,
            ),
        );
    }
    if !lists_language(languages, &config.language) {
        let mut message = String::from_str("the loaded model does not support ");
        message.append(config.language.as_str());
        return Err(SpeechError { kind: SpeechErrorKind::UnsupportedLanguage, message, recoverable: true });
    }
    match loaded {
        Some(kind) => Ok(kind),
        None => Err(
            SpeechError::new(
                SpeechErrorKind::MissingModel,
                "load a speech model before starting transcription",
                true,
            ),
        ),
    }
}

/// The model family of `model`, or the error that refuses its backend.
pub fn model_kind_for_location(model: &ModelLocation) -> (result: Result<LoadedModelKind, SpeechError>)
    ensures
        match model_kind_for_backend_spec(model.backend@) {
            Some(kind) => result == Ok::<LoadedModelKind, SpeechError>(kind),
            None => result matches Err(error) && error.kind == SpeechErrorKind::BackendUnavailable
                && !error.recoverable && error.message@ == "speech model "@ + model.id@
                + " uses unsupported backend "@ + model.backend@,
        },
{
    match model_kind_for_backend(model.backend.as_str()) {
        Some(kind) => Ok(kind),
        None => {
            let mut message = String::from_str("speech model ");
            message.append(model.id.as_str());
            message.append(" uses unsupported backend ");
            message.append(model.backend.as_str());
            Err(SpeechError { kind: SpeechErrorKind::BackendUnavailable, message, recoverable: false })
        },
    }
}

pub open spec fn model_kind_for_backend_spec(backend: Seq<char>) -> Option<LoadedModelKind> {
    if backend == TRANSDUCER_BACKEND@ {
        Some(LoadedModelKind::Transducer)
    } else if backend == NEMOTRON_BACKEND@ {
        Some(LoadedModelKind::Nemotron)
    } else {
        None
    }
}

/// The identifier of the utterance after `id`; the counter wraps.
pub open spec fn next_utterance(id: u64) -> u64 {
    if id == u64::MAX {
        0
    } else {
        (id + 1) as u64
    }
}

/// The utterance bookkeeping of one recognition stream: which utterance is
/// open, when it began, how far audio has reached, and the last partial text.
#[derive(Debug)]
pub struct UtteranceTracker {
    utterance_id: u64,
    utterance_start_micros: Option<u64>,
    latest_audio_micros: u64,
    last_partial: String,
    language: String,
    finished: bool,
}

impl UtteranceTracker {
    pub closed spec fn utterance(&self) -> u64 {
        self.utterance_id
    }

    pub closed spec fn started_at(&self) -> Option<u64> {
        self.utterance_start_micros
    }

    pub closed spec fn latest(&self) -> u64 {
        self.latest_audio_micros
    }

    pub closed spec fn partial(&self) -> Seq<char> {
        self.last_partial@
    }

    pub closed spec fn language_spec(&self) -> Seq<char> {
        self.language@
    }

    pub closed spec fn is_finished(&self) -> bool {
        self.finished
    }

    pub fn new(language: String) -> (tracker: Self)
        ensures
            tracker.utterance() == 0,
            tracker.started_at() is None,
            tracker.latest() == 0,
            tracker.partial() == Seq::<char>::empty(),
            tracker.language_spec() == language@,
            !tracker.is_finished(),
    {
        UtteranceTracker {
            utterance_id: 0,
            utterance_start_micros: None,
            latest_audio_micros: 0,
            last_partial: String::new(),
            language,
            finished: false,
        }
    }

    pub fn ensure_open(&self) -> (result: Result<(), SpeechError>)
        ensures
            result is Ok <==> !self.is_finished(),
            result matches Err(error) ==> error.kind == SpeechErrorKind::Internal && !error.recoverable
                && error.message@ == "speech stream is already finished"@,
    {
        if self.finished {
            Err(SpeechError::new(SpeechErrorKind::Internal, "speech stream is already finished", false))
        } else {
            Ok(())
        }
    }

    pub fn finish(&mut self)
        ensures
            final(self).is_finished(),
            final(self).utterance() == old(self).utterance(),
            final(self).started_at() == old(self).started_at(),
            final(self).latest() == old(self).latest(),
            final(self).partial() == old(self).partial(),
            final(self).language_spec() == old(self).language_spec(),
    {
        self.finished = true;
    }

    /// Records audio spanning `start_micros` to `end_micros`: it opens the
    /// utterance if none is open, and moves the audio clock forward.
    pub fn observe_audio(&mut self, start_micros: u64, end_micros: u64)
        ensures
            final(self).started_at() == (match old(self).started_at() {
                Some(start) => Some(start),
                None => Some(start_micros),
            }),
            final(self).latest() == if end_micros > old(self).latest() {
                end_micros
            } else {
                old(self).latest()
            },
            final(self).utterance() == old(self).utterance(),
            final(self).partial() == old(self).partial(),
            final(self).language_spec() == old(self).language_spec(),
            final(self).is_finished() == old(self).is_finished(),
    {
        if self.utterance_start_micros.is_none() {
            self.utterance_start_micros = Some(start_micros);
        }
        self.advance_clock(end_micros);
    }

    /// Moves the audio clock forward to `at_micros`, never back.
    pub fn advance_clock(&mut self, at_micros: u64)
        ensures
            final(self).latest() == if at_micros > old(self).latest() {
                at_micros
            } else {
                old(self).latest()
            },
            final(self).utterance() == old(self).utterance(),
            final(self).started_at() == old(self).started_at(),
            final(self).partial() == old(self).partial(),
            final(self).language_spec() == old(self).language_spec(),
            final(self).is_finished() == old(self).is_finished(),
    {
        if at_micros > self.latest_audio_micros {
            self.latest_audio_micros = at_micros;
        }
    }

    /// Whether the stream holds any hypothesis once `text` is current.
    pub fn has_hypothesis(&self, text: &String) -> (has: bool)
        ensures
            has == (text@.len() > 0 || self.partial().len() > 0),
    {
        !text.as_str().is_empty() || !self.last_partial.as_str().is_empty()
    }

    /// The hypothesis of the open utterance with `text`.
    pub fn hypothesis(&self, text: String) -> (hypothesis: SpeechHypothesis)
        ensures
            hypothesis.utterance_id == self.utterance(),
            hypothesis.text == text,
            hypothesis.start_micros == (match self.started_at() {
                Some(start) => start,
                None => self.latest(),
            }),
            hypothesis.end_micros == self.latest(),
            hypothesis.language@ == self.language_spec(),
    {
        SpeechHypothesis {
            utterance_id: self.utterance_id,
            text,
            start_micros: match self.utterance_start_micros {
                Some(start) => start,
                None => self.latest_audio_micros,
            },
            end_micros: self.latest_audio_micros,
            language: self.language.clone(),
        }
    }

    /// Takes the recognizer's current `text`: a partial event when it is new
    /// and non-empty, which also becomes the last partial text.
    pub fn observe_text(&mut self, text: String) -> (event: Option<SpeechEvent>)
        ensures
            (text@.len() > 0 && text@ != old(self).partial()) ==> (event matches Some(
                SpeechEvent::Partial(hypothesis),
            ) && hypothesis == old(self).hypothesis_spec(text)),
            !(text@.len() > 0 && text@ != old(self).partial()) ==> event is None,
            final(self).partial() == if text@.len() > 0 && text@ != old(self).partial() {
                text@
            } else {
                old(self).partial()
            },
            final(self).utterance() == old(self).utterance(),
            final(self).started_at() == old(self).started_at(),
            final(self).latest() == old(self).latest(),
            final(self).language_spec() == old(self).language_spec(),
            final(self).is_finished() == old(self).is_finished(),
    {
        if !text.as_str().is_empty() && !str_eq(text.as_str(), self.last_partial.as_str()) {
            self.last_partial = text.clone();
            let hypothesis = SpeechHypothesis {
                utterance_id: self.utterance_id,
                text,
                start_micros: match self.utterance_start_micros {
                    Some(start) => start,
                    None => self.latest_audio_micros,
                },
                end_micros: self.latest_audio_micros,
                language: self.language.clone(),
            };
            Some(SpeechEvent::Partial(hypothesis))
        } else {
            None
        }
    }

    pub closed spec fn hypothesis_spec(&self, text: String) -> SpeechHypothesis {
        SpeechHypothesis {
            utterance_id: self.utterance_id,
            text,
            start_micros: match self.utterance_start_micros {
                Some(start) => start,
                None => self.latest_audio_micros,
            },
            end_micros: self.latest_audio_micros,
            language: self.language,
        }
    }

    /// Whether `event` is the final event of the open utterance when the
    /// recognizer's text is `current`.
    pub open spec fn final_event_of(&self, current: Seq<char>, event: Option<SpeechEvent>) -> bool {
        match event {
            Some(SpeechEvent::Final(hypothesis)) => {
                &&& hypothesis.utterance_id == self.utterance()
                &&& hypothesis.start_micros == match self.started_at() {
                    Some(start) => start,
                    None => self.latest(),
                }
                &&& hypothesis.text@ == if current.len() > 0 {
                    current
                } else {
                    self.partial()
                }
                &&& hypothesis.text@.len() > 0
                &&& hypothesis.end_micros == self.latest()
                &&& hypothesis.language@ == self.language_spec()
            },
            Some(SpeechEvent::Partial(_)) => false,
            None => current.len() == 0 && self.partial().len() == 0,
        }
    }

    /// The final event of the open utterance: the recognizer's `current` text,
    /// or the last partial text when the recognizer has none; no event when
    /// both are empty.
    pub fn final_event(&self, current: String) -> (event: Option<SpeechEvent>)
        ensures
            self.final_event_of(current@, event),
    {
        let text = if current.as_str().is_empty() {
            self.last_partial.clone()
        } else {
            current
        };
        if text.as_str().is_empty() {
            None
        } else {
            Some(SpeechEvent::Final(self.hypothesis(text)))
        }
    }

    /// Closes the open utterance and opens the next one.
    pub fn advance_utterance(&mut self)
        ensures
            final(self).utterance() == next_utterance(old(self).utterance()),
            final(self).started_at() is None,
            final(self).partial() == Seq::<char>::empty(),
            final(self).latest() == old(self).latest(),
            final(self).language_spec() == old(self).language_spec(),
            final(self).is_finished() == old(self).is_finished(),
    {
        self.utterance_id = if self.utterance_id == u64::MAX {
            0
        } else {
            self.utterance_id + 1
        };
        self.utterance_start_micros = None;
        self.last_partial = String::new();
    }

    /// Whether the open Nemotron utterance must be closed by the adapter.
    pub fn boundary_reached(&self, model_kind: LoadedModelKind, has_hypothesis: bool) -> (reached: bool)
        ensures
            reached == nemotron_boundary_spec(
                model_kind,
                self.started_at(),
                self.latest(),
                has_hypothesis,
            ),
    {
        nemotron_boundary_reached(model_kind, self.utterance_start_micros, self.latest_audio_micros, has_hypothesis)
    }
}

/// Final events are append-only: once an utterance is closed, every later
/// hypothesis, partial or final, names a later utterance (until the
/// utterance counter wraps), so no final result is revised.
pub proof fn closed_utterances_stay_closed(closed: UtteranceTracker, later: UtteranceTracker, text: String)
    requires
        closed.utterance() < u64::MAX,
        later.utterance() >= next_utterance(closed.utterance()),
    ensures
        later.hypothesis_spec(text).utterance_id > closed.utterance(),
{
}

/// A final event spans its utterance as a partial one does: it starts where
/// the utterance began (or at the latest audio when none began), ends at the
/// latest audio, names the open utterance and keeps the stream's language,
/// whichever text it carries; there is one exactly when some text is left.
pub proof fn finals_span_their_utterance(
    tracker: UtteranceTracker,
    current: Seq<char>,
    event: Option<SpeechEvent>,
    partial: String,
)
    requires
        tracker.final_event_of(current, event),
    ensures
        event is Some <==> (current.len() > 0 || tracker.partial().len() > 0),
        event matches Some(SpeechEvent::Final(h)) ==> {
            let p = tracker.hypothesis_spec(partial);
            &&& h.start_micros == p.start_micros
            &&& h.end_micros == p.end_micros
            &&& h.utterance_id == p.utterance_id
            &&& h.language@ == p.language@
            &&& h.start_micros == match tracker.started_at() {
                Some(start) => start,
                None => tracker.latest(),
            }
            &&& h.end_micros == tracker.latest()
        },
        !(event matches Some(SpeechEvent::Partial(_))),
{
}

} // verus!
