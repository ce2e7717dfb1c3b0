//! Validation of the caption frames that the WebView asks the overlay to show.

use vstd::prelude::*;
use vstd::string::*;

use crate::contracts::{
    ApplicationError, ApplicationErrorCode, CaptionOutputMode, CaptionPresentationEntry,
    CaptionPresentationFrame, CaptionPresentationPhase, ErrorRecoverability, RecoveryAction,
    SessionId,
};
use crate::speech::str_eq;
use crate::text::{blank, byte_len, byte_length, decimal, decimal_string, is_blank};
use crate::visual_presentation::{replaces, replaces_shown};
use crate::contracts::error_is;

verus! {

pub const MAX_CAPTION_ENTRIES: usize = 4;

pub const MAX_CAPTION_TEXT_BYTES: usize = 16384;

pub const MAX_KEY_BYTES: usize = 1024;

pub const MAX_LANGUAGE_BYTES: usize = 64;

pub const JS_MAX_SAFE_INTEGER: u64 = 9_007_199_254_740_991;

/// The first rule that `entry` breaks, as the message that reports it.
pub open spec fn entry_problem(entry: CaptionPresentationEntry) -> Option<Seq<char>> {
    if entry.key@.len() == 0 || byte_len(entry.key@) > MAX_KEY_BYTES {
        Some("A caption row has an invalid identity key."@)
    } else if blank(entry.source_language@) || byte_len(entry.source_language@) > MAX_LANGUAGE_BYTES {
        Some("A caption source language identifier is too long."@)
    } else if blank(entry.original@) || byte_len(entry.original@) > MAX_CAPTION_TEXT_BYTES {
        Some("A caption row has invalid original text."@)
    } else if (entry.translation matches Some(text) && (blank(text@) || byte_len(text@)
        > MAX_CAPTION_TEXT_BYTES)) || (entry.translation_pending && entry.translation is Some) {
        Some("A caption row has invalid translated text."@)
    } else {
        None
    }
}

/// The problem of the first entry that breaks a rule.
pub open spec fn first_entry_problem(entries: Seq<CaptionPresentationEntry>) -> Option<Seq<char>>
    decreases entries.len(),
{
    if entries.len() == 0 {
        None
    } else {
        match entry_problem(entries[0]) {
            Some(problem) => Some(problem),
            None => first_entry_problem(entries.drop_first()),
        }
    }
}

/// The first rule that `frame` breaks, as the message that reports it.
pub open spec fn caption_frame_problem(frame: CaptionPresentationFrame) -> Option<Seq<char>> {
    let entries = frame.entries@;
    if frame.session_id.0 == 0 {
        Some("Caption presentation requires an active session identifier."@)
    } else if frame.presentation_revision == 0 || frame.presentation_revision > JS_MAX_SAFE_INTEGER
        || frame.readable_at_ms > JS_MAX_SAFE_INTEGER {
        Some("Caption presentation revisions and timestamps must be safe integers."@)
    } else if entries.len() > MAX_CAPTION_ENTRIES {
        Some(
            "Caption presentation contains "@ + decimal(entries.len()) + " rows; the maximum is 4."@,
        )
    } else if frame.phase == CaptionPresentationPhase::Cleared && (entries.len() > 0
        || frame.readable_at_ms != 0) {
        Some("A cleared caption presentation cannot contain rows or a timestamp."@)
    } else if frame.phase != CaptionPresentationPhase::Cleared && (entries.len() == 0
        || frame.readable_at_ms == 0) {
        Some("A visible caption presentation requires rows and a readable timestamp."@)
    } else if frame.phase == CaptionPresentationPhase::Active && (forall|i: int|
        0 <= i < entries.len() ==> (#[trigger] entries[i]).is_final) {
        Some("An active caption presentation requires provisional speech."@)
    } else if frame.phase == CaptionPresentationPhase::Holding && (exists|i: int|
        0 <= i < entries.len() && !(#[trigger] entries[i]).is_final) {
        Some("A holding caption presentation cannot contain provisional speech."@)
    } else if frame.mode != CaptionOutputMode::Original && (match frame.target_language {
        Some(language) => blank(language@),
        None => true,
    }) {
        Some("Translated caption output requires a target language."@)
    } else if frame.target_language matches Some(language) && byte_len(language@)
        > MAX_LANGUAGE_BYTES {
        Some("The caption target language identifier is too long."@)
    } else {
        first_entry_problem(entries)
    }
}

proof fn first_entry_problem_skips_clean_prefix(entries: Seq<CaptionPresentationEntry>, count: int)
    requires
        0 <= count <= entries.len(),
        forall|j: int| 0 <= j < count ==> entry_problem(#[trigger] entries[j]) is None,
    ensures
        first_entry_problem(entries) == first_entry_problem(entries.skip(count)),
    decreases count,
{
    if count > 0 {
        assert(entries.skip(1) =~= entries.drop_first());
        first_entry_problem_skips_clean_prefix(entries.drop_first(), count - 1);
        assert(entries.drop_first().skip(count - 1) =~= entries.skip(count));
    } else {
        assert(entries.skip(0) =~= entries);
    }
}

fn check_entry(entry: &CaptionPresentationEntry) -> (problem: Option<&'static str>)
    ensures
        match problem {
            Some(message) => entry_problem(*entry) == Some(message@),
            None => entry_problem(*entry) is None,
        },
{
    proof {
        reveal_strlit("A caption row has an invalid identity key.");
        reveal_strlit("A caption source language identifier is too long.");
        reveal_strlit("A caption row has invalid original text.");
        reveal_strlit("A caption row has invalid translated text.");
    }
    if entry.key.as_str().is_empty() || byte_length(entry.key.as_str()) > MAX_KEY_BYTES {
        return Some("A caption row has an invalid identity key.");
    }
    if is_blank(entry.source_language.as_str()) || byte_length(entry.source_language.as_str())
        > MAX_LANGUAGE_BYTES {
        return Some("A caption source language identifier is too long.");
    }
    if is_blank(entry.original.as_str()) || byte_length(entry.original.as_str()) > MAX_CAPTION_TEXT_BYTES {
        return Some("A caption row has invalid original text.");
    }
    let bad_translation = match &entry.translation {
        Some(text) => is_blank(text.as_str()) || byte_length(text.as_str()) > MAX_CAPTION_TEXT_BYTES,
        None => false,
    };
    if bad_translation || (entry.translation_pending && entry.translation.is_some()) {
        return Some("A caption row has invalid translated text.");
    }
    None
}

fn message(text: &str) -> (result: Result<(), String>)
    ensures
        result matches Err(error) && error@ == text@,
{
    Err(String::from_str(text))
}

/// Checks that a caption frame is consistent before it reaches the overlay,
/// reporting the first rule it breaks.
pub fn validate_caption_frame(frame: &CaptionPresentationFrame) -> (result: Result<(), String>)
    ensures
        match caption_frame_problem(*frame) {
            None => result is Ok,
            Some(problem) => result matches Err(error) && error@ == problem,
        },
{
    if frame.session_id.0 == 0 {
        return message("Caption presentation requires an active session identifier.");
    }
    if frame.presentation_revision == 0 || frame.presentation_revision > JS_MAX_SAFE_INTEGER
        || frame.readable_at_ms > JS_MAX_SAFE_INTEGER {
        return message("Caption presentation revisions and timestamps must be safe integers.");
    }
    let count = frame.entries.len();
    if count > MAX_CAPTION_ENTRIES {
        let mut text = String::from_str("Caption presentation contains ");
        text.append(decimal_string(count as u64).as_str());
        text.append(" rows; the maximum is 4.");
        return Err(text);
    }
    if frame.phase == CaptionPresentationPhase::Cleared && (count > 0 || frame.readable_at_ms != 0) {
        return message("A cleared caption presentation cannot contain rows or a timestamp.");
    }
    if frame.phase != CaptionPresentationPhase::Cleared && (count == 0 || frame.readable_at_ms == 0) {
        return message("A visible caption presentation requires rows and a readable timestamp.");
    }
    let mut all_final = true;
    let mut any_provisional = false;
    let mut index: usize = 0;
    while index < count
        invariant
            count == frame.entries@.len(),
            index <= count,
            all_final == forall|i: int| 0 <= i < index ==> (#[trigger] frame.entries@[i]).is_final,
            any_provisional == exists|i: int| 0 <= i < index && !(#[trigger] frame.entries@[i]).is_final,
        decreases count - index,
    {
        if !frame.entries[index].is_final {
            all_final = false;
            any_provisional = true;
        }
        index = index + 1;
    }
    if frame.phase == CaptionPresentationPhase::Active && all_final {
        return message("An active caption presentation requires provisional speech.");
    }
    if frame.phase == CaptionPresentationPhase::Holding && any_provisional {
        return message("A holding caption presentation cannot contain provisional speech.");
    }
    let missing_target = match &frame.target_language {
        Some(language) => is_blank(language.as_str()),
        None => true,
    };
    if frame.mode != CaptionOutputMode::Original && missing_target {
        return message("Translated caption output requires a target language.");
    }
    let long_target = match &frame.target_language {
        Some(language) => byte_length(language.as_str()) > MAX_LANGUAGE_BYTES,
        None => false,
    };
    if long_target {
        return message("The caption target language identifier is too long.");
    }
    assert(caption_frame_problem(*frame) == first_entry_problem(frame.entries@));
    let mut index: usize = 0;
    while index < count
        invariant
            count == frame.entries@.len(),
            index <= count,
            caption_frame_problem(*frame) == first_entry_problem(frame.entries@),
            forall|j: int| 0 <= j < index ==> entry_problem(#[trigger] frame.entries@[j]) is None,
        decreases count - index,
    {
        match check_entry(&frame.entries[index]) {
            Some(problem) => {
                proof {
                    first_entry_problem_skips_clean_prefix(frame.entries@, index as int);
                    let rest = frame.entries@.skip(index as int);
                    assert(rest[0] == frame.entries@[index as int]);
                    assert(first_entry_problem(rest) == entry_problem(rest[0]));
                }
                return message(problem);
            },
            None => {},
        }
        index = index + 1;
    }
    proof {
        first_entry_problem_skips_clean_prefix(frame.entries@, count as int);
    }
    Ok(())
}

/// The frame that clears the overlay for a session.
pub fn cleared_frame(session_id: SessionId, runtime_revision: u32, presentation_revision: u64) -> (frame: CaptionPresentationFrame)
    ensures
        frame.session_id == session_id,
        frame.runtime_revision == runtime_revision,
        frame.presentation_revision == presentation_revision,
        frame.phase == CaptionPresentationPhase::Cleared,
        frame.readable_at_ms == 0,
        frame.mode == CaptionOutputMode::Original,
        frame.target_language is None,
        frame.entries@.len() == 0,
{
    CaptionPresentationFrame {
        session_id,
        runtime_revision,
        presentation_revision,
        phase: CaptionPresentationPhase::Cleared,
        readable_at_ms: 0,
        mode: CaptionOutputMode::Original,
        target_language: None,
        entries: Vec::new(),
    }
}

/// The presentation revision of the frame that clears session `session_id`
/// after `current`: one past the session's current frame, or zero when the
/// current frame belongs to no session or another one.
pub fn clearing_revision(current: &Option<CaptionPresentationFrame>, session_id: SessionId) -> (revision: u64)
    ensures
        revision == match current {
            Some(frame) => if frame.session_id == session_id {
                if frame.presentation_revision == u64::MAX {
                    u64::MAX
                } else {
                    (frame.presentation_revision + 1) as u64
                }
            } else {
                0
            },
            None => 0,
        },
{
    match current {
        Some(frame) => if frame.session_id == session_id {
            frame.presentation_revision.saturating_add(1)
        } else {
            0
        },
        None => 0,
    }
}

/// The error that refuses an invalid frame of session `session_id`.
pub fn invalid_frame(message: &str, session_id: SessionId) -> (error: ApplicationError)
    ensures
        error.code == ApplicationErrorCode::ConfigurationInvalid,
        error.message@ == message@,
        error.recoverability == ErrorRecoverability::UserActionRequired,
        error.suggested_action == RecoveryAction::OpenSettings,
        error.session_id == Some(session_id),
{
    ApplicationError::new(
        ApplicationErrorCode::ConfigurationInvalid,
        message,
        ErrorRecoverability::UserActionRequired,
        RecoveryAction::OpenSettings,
    ).for_session(session_id)
}

/// Only the main interface may publish caption frames; any other window is
/// refused with an internal error for the frame's session.
pub fn require_main_webview(label: &str, session_id: SessionId) -> (result: Result<(), ApplicationError>)
    ensures
        label@ == "main"@ ==> result is Ok,
        label@ != "main"@ ==> (result matches Err(error) && error_is(
            error,
            ApplicationErrorCode::Internal,
            "Only the main Prollyglot interface may publish caption presentation frames."@,
            ErrorRecoverability::NotRecoverable,
            RecoveryAction::ReportIssue,
            Some(session_id),
        )),
{
    if str_eq(label, "main") {
        return Ok(());
    }
    Err(
        ApplicationError::new(
            ApplicationErrorCode::Internal,
            "Only the main Prollyglot interface may publish caption presentation frames.",
            ErrorRecoverability::NotRecoverable,
            RecoveryAction::ReportIssue,
        ).for_session(session_id),
    )
}

/// Whether `frame` may replace the caption frame currently shown: any frame
/// when none is shown, else only a newer frame of the same session.
pub fn accepts_caption_frame(current: &Option<CaptionPresentationFrame>, frame: &CaptionPresentationFrame) -> (accepted: bool)
    ensures
        accepted == match current {
            None => true,
            Some(shown) => replaces_shown(
                shown.session_id,
                shown.runtime_revision,
                shown.presentation_revision,
                frame.session_id,
                frame.runtime_revision,
                frame.presentation_revision,
            ),
        },
{
    match current {
        None => true,
        Some(shown) => replaces(
            shown.session_id,
            shown.runtime_revision,
            shown.presentation_revision,
            frame.session_id,
            frame.runtime_revision,
            frame.presentation_revision,
        ),
    }
}

/// The error when the caption overlay window cannot be found.
pub fn overlay_unavailable(session_id: SessionId) -> (error: ApplicationError)
    ensures
        error_is(
            error,
            ApplicationErrorCode::WindowOperationFailed,
            "Caption presentation overlay is unavailable."@,
            ErrorRecoverability::RestartRequired,
            RecoveryAction::RestartApplication,
            Some(session_id),
        ),
{
    ApplicationError::new(
        ApplicationErrorCode::WindowOperationFailed,
        "Caption presentation overlay is unavailable.",
        ErrorRecoverability::RestartRequired,
        RecoveryAction::RestartApplication,
    ).for_session(session_id)
}

/// The error when a frame could not be handed to the caption overlay; the
/// frame shown before it is kept.
pub fn overlay_delivery_failed(message: &str, session_id: SessionId) -> (error: ApplicationError)
    ensures
        error_is(
            error,
            ApplicationErrorCode::WindowOperationFailed,
            message@,
            ErrorRecoverability::Retryable,
            RecoveryAction::Retry,
            Some(session_id),
        ),
{
    ApplicationError::new(
        ApplicationErrorCode::WindowOperationFailed,
        message,
        ErrorRecoverability::Retryable,
        RecoveryAction::Retry,
    ).for_session(session_id)
}

} // verus!
