//! The rules for the translated text that the WebView asks the visual
//! overlay to show: which frames are valid, which the runtime still accepts,
//! which replace the one shown, and which texts the screen reader must not
//! read back.

use vstd::prelude::*;
use vstd::string::*;

use crate::contracts::{
    error_is, ApplicationError, ApplicationErrorCode, ErrorRecoverability, RecoveryAction,
    RuntimeSnapshot, SessionId, SessionLifecycle, SessionMode,
};
use crate::speech::str_eq;
use crate::echo::{normalize_overlay_text, normalized};
use crate::presentation::JS_MAX_SAFE_INTEGER;
use crate::text::{blank, is_blank};

verus! {

/// The most regions one visual presentation frame holds.
pub const MAX_VISUAL_REGIONS: usize = 48;

/// The most characters of text in one region.
pub const MAX_REGION_CHARS: usize = 2000;

/// The most characters of a language identifier.
pub const MAX_LANGUAGE_CHARS: usize = 16;

/// A region of a visual presentation frame, with whether its bounds are a
/// finite, non-negative rectangle of positive size.
#[derive(Clone, Debug, PartialEq, Eq)]
pub struct VisualRegionOutline {
    pub track_id: u64,
    pub text_revision: u64,
    pub original: String,
    pub translation: Option<String>,
    pub translation_pending: bool,
    pub bounds_valid: bool,
}

/// A visual presentation frame, as far as its validity depends on it.
#[derive(Clone, Debug, PartialEq, Eq)]
pub struct VisualPresentationOutline {
    pub session_id: SessionId,
    pub presentation_revision: u64,
    pub source_width: u32,
    pub source_height: u32,
    pub source_language: String,
    pub target_language: String,
    pub regions: Vec<VisualRegionOutline>,
}

pub open spec fn region_invalid(region: VisualRegionOutline) -> bool {
    ||| region.track_id == 0
    ||| region.track_id > JS_MAX_SAFE_INTEGER
    ||| region.text_revision == 0
    ||| region.text_revision > JS_MAX_SAFE_INTEGER
    ||| blank(region.original@)
    ||| region.original@.len() > MAX_REGION_CHARS
    ||| (region.translation matches Some(text) && (blank(text@) || text@.len()
        > MAX_REGION_CHARS))
    ||| !region.bounds_valid
    ||| (region.translation_pending && region.translation is Some)
}

/// The first rule that `frame` breaks, as the message that reports it.
pub open spec fn visual_frame_problem(frame: VisualPresentationOutline) -> Option<Seq<char>> {
    if frame.session_id.0 == 0 {
        Some("Visual presentation requires an active session identifier."@)
    } else if frame.presentation_revision == 0 || frame.presentation_revision > JS_MAX_SAFE_INTEGER {
        Some("The visual presentation revision must be a safe integer."@)
    } else if frame.source_width == 0 || frame.source_height == 0 {
        Some("Visual presentation source dimensions must be non-zero."@)
    } else if frame.source_language@.len() == 0 || frame.target_language@.len() == 0
        || frame.source_language@.len() > MAX_LANGUAGE_CHARS || frame.target_language@.len()
        > MAX_LANGUAGE_CHARS {
        Some("Visual presentation language identifiers are invalid."@)
    } else if frame.regions@.len() > MAX_VISUAL_REGIONS {
        Some("Visual presentation contains too many regions."@)
    } else if exists|i: int| 0 <= i < frame.regions@.len() && region_invalid(#[trigger] frame.regions@[i]) {
        Some("Visual presentation contains an invalid region."@)
    } else {
        None
    }
}

fn check_region(region: &VisualRegionOutline) -> (invalid: bool)
    ensures
        invalid == region_invalid(*region),
{
    let bad_translation = match &region.translation {
        Some(text) => is_blank(text.as_str()) || text.as_str().unicode_len() > MAX_REGION_CHARS,
        None => false,
    };
    region.track_id == 0 || region.track_id > JS_MAX_SAFE_INTEGER || region.text_revision == 0
        || region.text_revision > JS_MAX_SAFE_INTEGER || is_blank(region.original.as_str())
        || region.original.as_str().unicode_len() > MAX_REGION_CHARS || bad_translation
        || !region.bounds_valid || (region.translation_pending && region.translation.is_some())
}

fn problem(message: &str) -> (result: Result<(), String>)
    ensures
        result matches Err(text) && text@ == message@,
{
    Err(String::from_str(message))
}

/// Checks a visual presentation frame, reporting the first rule it breaks.
pub fn validate_visual_presentation(frame: &VisualPresentationOutline) -> (result: Result<(), String>)
    ensures
        match visual_frame_problem(*frame) {
            None => result is Ok,
            Some(message) => result matches Err(text) && text@ == message,
        },
{
    if frame.session_id.0 == 0 {
        return problem("Visual presentation requires an active session identifier.");
    }
    if frame.presentation_revision == 0 || frame.presentation_revision > JS_MAX_SAFE_INTEGER {
        return problem("The visual presentation revision must be a safe integer.");
    }
    if frame.source_width == 0 || frame.source_height == 0 {
        return problem("Visual presentation source dimensions must be non-zero.");
    }
    let source_chars = frame.source_language.as_str().unicode_len();
    let target_chars = frame.target_language.as_str().unicode_len();
    if source_chars == 0 || target_chars == 0 || source_chars > MAX_LANGUAGE_CHARS || target_chars
        > MAX_LANGUAGE_CHARS {
        return problem("Visual presentation language identifiers are invalid.");
    }
    if frame.regions.len() > MAX_VISUAL_REGIONS {
        return problem("Visual presentation contains too many regions.");
    }
    let ghost invalid_region = exists|i: int|
        0 <= i < frame.regions@.len() && region_invalid(#[trigger] frame.regions@[i]);
    assert(visual_frame_problem(*frame) == if invalid_region {
        Some("Visual presentation contains an invalid region."@)
    } else {
        None
    });
    let mut index: usize = 0;
    while index < frame.regions.len()
        invariant
            index <= frame.regions@.len(),
            invalid_region == exists|i: int|
                0 <= i < frame.regions@.len() && region_invalid(#[trigger] frame.regions@[i]),
            visual_frame_problem(*frame) == if invalid_region {
                Some("Visual presentation contains an invalid region."@)
            } else {
                None
            },
            forall|j: int| 0 <= j < index ==> !region_invalid(#[trigger] frame.regions@[j]),
        decreases frame.regions@.len() - index,
    {
        if check_region(&frame.regions[index]) {
            assert(region_invalid(frame.regions@[index as int]));
            return problem("Visual presentation contains an invalid region.");
        }
        index = index + 1;
    }
    Ok(())
}

/// Whether the runtime still accepts a presentation frame of session
/// `session_id` made at runtime revision `runtime_revision` for a `mode`
/// session: that session is current, has not begun to stop, and the frame
/// is not from the future.
pub open spec fn presentation_admitted(
    snapshot: RuntimeSnapshot,
    mode: SessionMode,
    session_id: SessionId,
    runtime_revision: u32,
) -> bool {
    &&& snapshot.mode == Some(mode)
    &&& snapshot.session_id == Some(session_id)
    &&& (snapshot.lifecycle == SessionLifecycle::Starting || snapshot.lifecycle
        == SessionLifecycle::Running || snapshot.lifecycle == SessionLifecycle::Waiting)
    &&& runtime_revision <= snapshot.revision
}

pub fn admits_presentation(
    snapshot: &RuntimeSnapshot,
    mode: SessionMode,
    session_id: SessionId,
    runtime_revision: u32,
) -> (admitted: bool)
    ensures
        admitted == presentation_admitted(*snapshot, mode, session_id, runtime_revision),
{
    snapshot.mode == Some(mode) && snapshot.session_id == Some(session_id) && (snapshot.lifecycle
        == SessionLifecycle::Starting || snapshot.lifecycle == SessionLifecycle::Running
        || snapshot.lifecycle == SessionLifecycle::Waiting) && runtime_revision <= snapshot.revision
}

/// Whether a frame replaces the one shown: same session, no older runtime
/// revision, and a newer presentation revision.
pub open spec fn replaces_shown(
    shown_session: SessionId,
    shown_runtime_revision: u32,
    shown_presentation_revision: u64,
    session_id: SessionId,
    runtime_revision: u32,
    presentation_revision: u64,
) -> bool {
    shown_session == session_id && runtime_revision >= shown_runtime_revision
        && presentation_revision > shown_presentation_revision
}

pub fn replaces(
    shown_session: SessionId,
    shown_runtime_revision: u32,
    shown_presentation_revision: u64,
    session_id: SessionId,
    runtime_revision: u32,
    presentation_revision: u64,
) -> (replace: bool)
    ensures
        replace == replaces_shown(
            shown_session,
            shown_runtime_revision,
            shown_presentation_revision,
            session_id,
            runtime_revision,
            presentation_revision,
        ),
{
    !(shown_session != session_id || runtime_revision < shown_runtime_revision
        || presentation_revision <= shown_presentation_revision)
}

/// The translated texts among `translations`, in order.
pub open spec fn translated_texts(translations: Seq<Option<String>>) -> Seq<Seq<char>>
    decreases translations.len(),
{
    if translations.len() == 0 {
        Seq::empty()
    } else {
        let before = translated_texts(translations.drop_last());
        match translations.last() {
            Some(text) => before.push(text@),
            None => before,
        }
    }
}

/// The normalised forms of `texts` that are long enough to recognise.
pub open spec fn recognisable(texts: Seq<Seq<char>>) -> Seq<Seq<char>>
    decreases texts.len(),
{
    if texts.len() == 0 {
        Seq::empty()
    } else {
        let before = recognisable(texts.drop_last());
        if normalized(texts.last()).len() >= 4 {
            before.push(normalized(texts.last()))
        } else {
            before
        }
    }
}

/// The texts that the screen reader must not read back once a frame with
/// region translations `translations` is shown: the normalised forms of its
/// first `MAX_VISUAL_REGIONS` translations, when long enough to recognise.
pub open spec fn overlay_echoes_of(translations: Seq<Option<String>>) -> Seq<Seq<char>> {
    let texts = translated_texts(translations);
    recognisable(
        if texts.len() > MAX_VISUAL_REGIONS {
            texts.take(MAX_VISUAL_REGIONS as int)
        } else {
            texts
        },
    )
}

pub fn overlay_echoes(translations: &Vec<Option<String>>) -> (echoes: Vec<String>)
    ensures
        echoes@.map_values(|echo: String| echo@) == overlay_echoes_of(translations@),
{
    let ghost all = translated_texts(translations@);
    let mut echoes: Vec<String> = Vec::new();
    let mut taken: usize = 0;
    let mut index: usize = 0;
    while index < translations.len()
        invariant
            index <= translations@.len(),
            all == translated_texts(translations@),
            taken <= MAX_VISUAL_REGIONS,
            taken as int == if translated_texts(translations@.take(index as int)).len()
                > MAX_VISUAL_REGIONS {
                MAX_VISUAL_REGIONS as int
            } else {
                translated_texts(translations@.take(index as int)).len() as int
            },
            echoes@.map_values(|echo: String| echo@) == recognisable(
                translated_texts(translations@.take(index as int)).take(taken as int),
            ),
        decreases translations@.len() - index,
    {
        let ghost before = translated_texts(translations@.take(index as int));
        assert(translations@.take(index + 1).drop_last() =~= translations@.take(index as int));
        match &translations[index] {
            Some(text) => {
                assert(translated_texts(translations@.take(index + 1)) == before.push(text@));
                if taken < MAX_VISUAL_REGIONS {
                    let normalized_text = normalize_overlay_text(text.as_str());
                    let ghost kept = echoes@.map_values(|echo: String| echo@);
                    assert(before.push(text@).take(taken + 1) =~= before.take(taken as int).push(
                        text@,
                    ));
                    assert(before.push(text@).take(taken + 1).drop_last() =~= before.take(
                        taken as int,
                    ));
                    if normalized_text.as_str().unicode_len() >= 4 {
                        echoes.push(normalized_text);
                        assert(echoes@.map_values(|echo: String| echo@) =~= kept.push(
                            normalized(text@),
                        ));
                    }
                    taken = taken + 1;
                } else {
                    assert(before.push(text@).take(taken as int) =~= before.take(taken as int));
                }
            },
            None => {
                assert(translated_texts(translations@.take(index + 1)) == before);
            },
        }
        index = index + 1;
    }
    assert(translations@.take(translations@.len() as int) =~= translations@);
    proof {
        if all.len() <= MAX_VISUAL_REGIONS {
            assert(all.take(taken as int) =~= all);
        }
    }
    echoes
}

/// Only the main interface may publish visual presentation frames; any
/// other window is refused with an internal error for the frame's session.
pub fn require_main_interface(label: &str, session_id: SessionId) -> (result: Result<(), ApplicationError>)
    ensures
        label@ == "main"@ ==> result is Ok,
        label@ != "main"@ ==> (result matches Err(error) && error_is(
            error,
            ApplicationErrorCode::Internal,
            "Only the main Prollyglot interface may publish visual presentation frames."@,
            ErrorRecoverability::NotRecoverable,
            RecoveryAction::ReportIssue,
            Some(session_id),
        )),
{
    if str_eq(label, "main") {
        return Ok(());
    }
    Err(
        ApplicationError::new(
            ApplicationErrorCode::Internal,
            "Only the main Prollyglot interface may publish visual presentation frames.",
            ErrorRecoverability::NotRecoverable,
            RecoveryAction::ReportIssue,
        ).for_session(session_id),
    )
}

/// The frame that empties the visual overlay for session `session_id`
/// after `current`: one presentation revision past the session's frame, or
/// the first revision for another session, keeping the source's languages
/// and its size, which stays at least one pixel each way.
pub fn cleared_visual_presentation(current: &VisualPresentationOutline, session_id: SessionId) -> (cleared: VisualPresentationOutline)
    ensures
        cleared.session_id == session_id,
        cleared.presentation_revision == if current.session_id == session_id {
            if current.presentation_revision == u64::MAX {
                u64::MAX
            } else {
                (current.presentation_revision + 1) as u64
            }
        } else {
            0
        },
        cleared.source_width == if current.source_width == 0 { 1 } else { current.source_width },
        cleared.source_height == if current.source_height == 0 { 1 } else { current.source_height },
        cleared.source_language@ == current.source_language@,
        cleared.target_language@ == current.target_language@,
        cleared.regions@.len() == 0,
{
    let presentation_revision = if current.session_id == session_id {
        current.presentation_revision.saturating_add(1)
    } else {
        0
    };
    VisualPresentationOutline {
        session_id,
        presentation_revision,
        source_width: if current.source_width == 0 { 1 } else { current.source_width },
        source_height: if current.source_height == 0 { 1 } else { current.source_height },
        source_language: current.source_language.clone(),
        target_language: current.target_language.clone(),
        regions: Vec::new(),
    }
}

/// Frames shown one after another only move forward: a frame that replaces
/// one that replaced a third also replaces that third, with a newer
/// presentation revision and no older runtime revision.
pub proof fn replacements_only_advance(
    first: (SessionId, u32, u64),
    second: (SessionId, u32, u64),
    third: (SessionId, u32, u64),
)
    requires
        replaces_shown(first.0, first.1, first.2, second.0, second.1, second.2),
        replaces_shown(second.0, second.1, second.2, third.0, third.1, third.2),
    ensures
        replaces_shown(first.0, first.1, first.2, third.0, third.1, third.2),
        third.2 > first.2,
        !replaces_shown(third.0, third.1, third.2, first.0, first.1, first.2),
{
}

} // verus!
