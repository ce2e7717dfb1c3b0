//! Which WebView translation runtime owns the inference slot of the active
//! session, and how its load and unload reports are judged.

use vstd::prelude::*;
use vstd::string::*;

use crate::contracts::{
    error_is, ApplicationError, ApplicationErrorCode, ErrorRecoverability, InferenceResourceKind,
    InferenceResourcePhase, RecoveryAction, ReportInferenceResourceCommand, RuntimeSnapshot,
    SessionId, SessionLifecycle,
};
use crate::speech::str_eq;
use crate::text::{chars_of, is_white_space, white_space};

verus! {

/// The most characters of an owner or model identifier.
pub const MAX_IDENTIFIER_CHARS: usize = 240;

/// `text` without leading and trailing white space, as `str::trim` leaves it.
pub open spec fn trimmed(text: Seq<char>) -> Seq<char>
    decreases text.len(),
{
    if text.len() == 0 {
        text
    } else if white_space(text[0]) {
        trimmed(text.drop_first())
    } else if white_space(text.last()) {
        trimmed(text.drop_last())
    } else {
        text
    }
}

/// The error for an invalid identifier named `label`.
pub open spec fn invalid_identifier(error: ApplicationError, label: Seq<char>) -> bool {
    error_is(
        error,
        ApplicationErrorCode::ConfigurationInvalid,
        "The "@ + label + " identifier is invalid."@,
        ErrorRecoverability::UserActionRequired,
        RecoveryAction::StopAndRetry,
        None,
    )
}

proof fn trimmed_drops_ends(text: Seq<char>, start: int, end: int)
    requires
        0 <= start <= end <= text.len(),
        forall|i: int| 0 <= i < start ==> white_space(#[trigger] text[i]),
        forall|i: int| end <= i < text.len() ==> white_space(#[trigger] text[i]),
        start == end || (!white_space(text[start]) && !white_space(text[end - 1])),
    ensures
        trimmed(text) == text.subrange(start, end),
    decreases text.len(),
{
    if text.len() == 0 {
        assert(text.subrange(start, end) =~= text);
    } else if start > 0 {
        assert(white_space(text[0]));
        let rest = text.drop_first();
        assert forall|i: int| 0 <= i < start - 1 implies white_space(#[trigger] rest[i]) by {
            assert(rest[i] == text[i + 1]);
        }
        assert forall|i: int| end - 1 <= i < rest.len() implies white_space(#[trigger] rest[i]) by {
            assert(rest[i] == text[i + 1]);
        }
        trimmed_drops_ends(rest, start - 1, end - 1);
        assert(rest.subrange(start - 1, end - 1) =~= text.subrange(start, end));
    } else if end < text.len() {
        if start == end {
            assert(white_space(text[0]));
            let rest = text.drop_first();
            assert forall|i: int| 0 <= i < rest.len() implies white_space(#[trigger] rest[i]) by {
                assert(rest[i] == text[i + 1]);
            }
            trimmed_drops_ends(rest, 0, 0);
            assert(text.subrange(start, end) =~= rest.subrange(0, 0));
        } else {
            assert(!white_space(text[0]));
            assert(white_space(text.last()));
            let rest = text.drop_last();
            trimmed_drops_ends(rest, start, end);
            assert(rest.subrange(start, end) =~= text.subrange(start, end));
        }
    } else {
        if start == end {
            assert(text.subrange(start, end) =~= Seq::<char>::empty());
            assert(text.len() == 0);
        } else {
            assert(text.subrange(0, text.len() as int) =~= text);
        }
    }
}

/// Where the text of `chars` begins and ends once leading and trailing
/// white space is left out.
pub fn trim_bounds(chars: &Vec<char>) -> (bounds: (usize, usize))
    ensures
        bounds.0 <= bounds.1 <= chars@.len(),
        trimmed(chars@) == chars@.subrange(bounds.0 as int, bounds.1 as int),
{
    let mut start: usize = 0;
    while start < chars.len() && is_white_space(chars[start])
        invariant
            start <= chars@.len(),
            forall|i: int| 0 <= i < start ==> white_space(#[trigger] chars@[i]),
        decreases chars@.len() - start,
    {
        start = start + 1;
    }
    let mut end = chars.len();
    while end > start && is_white_space(chars[end - 1])
        invariant
            start <= end <= chars@.len(),
            forall|i: int| end <= i < chars@.len() ==> white_space(#[trigger] chars@[i]),
        decreases end - start,
    {
        end = end - 1;
    }
    proof {
        trimmed_drops_ends(chars@, start as int, end as int);
    }
    (start, end)
}

fn text_between(chars: &Vec<char>, from: usize, to: usize) -> (text: String)
    requires
        from <= to <= chars@.len(),
    ensures
        text@ == chars@.subrange(from as int, to as int),
{
    let mut text = String::new();
    let mut index = from;
    while index < to
        invariant
            from <= index <= to <= chars@.len(),
            text@ == chars@.subrange(from as int, index as int),
        decreases to - index,
    {
        text.push(chars[index]);
        index = index + 1;
        assert(text@ =~= chars@.subrange(from as int, index as int));
    }
    text
}

/// An identifier reported by the WebView, trimmed; refused when empty or
/// longer than `MAX_IDENTIFIER_CHARS` characters.
pub fn normalized_identifier(value: &str, label: &str) -> (result: Result<String, ApplicationError>)
    ensures
        (trimmed(value@).len() == 0 || trimmed(value@).len() > MAX_IDENTIFIER_CHARS) ==> (
        result matches Err(error) && invalid_identifier(error, label@)),
        !(trimmed(value@).len() == 0 || trimmed(value@).len() > MAX_IDENTIFIER_CHARS) ==> (
        result matches Ok(text) && text@ == trimmed(value@)),
{
    let chars = chars_of(value);
    let (start, end) = trim_bounds(&chars);
    if end == start || end - start > MAX_IDENTIFIER_CHARS {
        let mut message = String::from_str("The ");
        message.append(label);
        message.append(" identifier is invalid.");
        return Err(
            ApplicationError::new(
                ApplicationErrorCode::ConfigurationInvalid,
                message.as_str(),
                ErrorRecoverability::UserActionRequired,
                RecoveryAction::StopAndRetry,
            ),
        );
    }
    Ok(text_between(&chars, start, end))
}

/// The translation runtime that owns the inference slot.
#[derive(Clone, Debug, PartialEq, Eq)]
pub struct TranslationOwner {
    pub session_id: SessionId,
    pub owner_id: String,
    pub model_id: String,
}

/// What a translation report asks of the inference slot.
#[derive(Debug, PartialEq, Eq)]
pub enum TranslationReport {
    /// The owner already holds the slot with this model.
    Unchanged,
    /// The slot passes to this owner, after the current lease is released.
    Acquire(TranslationOwner),
    /// The owner gives the slot back.
    Release,
    /// The report does not concern the current owner; nothing changes.
    Keep,
}

pub open spec fn resource_conflict(error: ApplicationError, message: Seq<char>, session_id: SessionId) -> bool {
    error_is(
        error,
        ApplicationErrorCode::SessionConflict,
        message,
        ErrorRecoverability::Retryable,
        RecoveryAction::StopAndRetry,
        Some(session_id),
    )
}

fn conflict(message: &str, session_id: SessionId) -> (error: ApplicationError)
    ensures
        resource_conflict(error, message@, session_id),
{
    ApplicationError::new(
        ApplicationErrorCode::SessionConflict,
        message,
        ErrorRecoverability::Retryable,
        RecoveryAction::StopAndRetry,
    ).for_session(session_id)
}

/// Whether `snapshot` shows the session of `command`, in its mode, live.
pub open spec fn reports_live_session(snapshot: RuntimeSnapshot, command: ReportInferenceResourceCommand) -> bool {
    &&& snapshot.session_id == Some(command.session_id)
    &&& snapshot.mode == Some(command.mode)
    &&& (snapshot.lifecycle == SessionLifecycle::Starting || snapshot.lifecycle
        == SessionLifecycle::Running || snapshot.lifecycle == SessionLifecycle::Waiting)
}

pub open spec fn valid_identifier(value: Seq<char>) -> bool {
    trimmed(value).len() > 0 && trimmed(value).len() <= MAX_IDENTIFIER_CHARS
}

pub open spec fn model_text(model_id: Option<String>) -> Seq<char> {
    match model_id {
        Some(id) => id@,
        None => Seq::empty(),
    }
}

/// Judges a translation runtime's report of loading or unloading a model,
/// given the runtime's snapshot and the slot's current owner.
pub fn decide_translation_report(
    snapshot: &RuntimeSnapshot,
    current: &Option<TranslationOwner>,
    command: &ReportInferenceResourceCommand,
) -> (result: Result<TranslationReport, ApplicationError>)
    ensures
        command.kind != InferenceResourceKind::Translation ==> (result matches Err(error)
            && resource_conflict(
            error,
            "Only the WebView translation runtime may report frontend inference ownership."@,
            command.session_id,
        )),
        command.kind == InferenceResourceKind::Translation && command.phase
            == InferenceResourcePhase::Loaded ==> {
            let owner = trimmed(command.owner_id@);
            let model = trimmed(model_text(command.model_id));
            if !reports_live_session(*snapshot, *command) {
                result matches Err(error) && resource_conflict(
                    error,
                    "The translation runtime reported a load for a session that is no longer active."@,
                    command.session_id,
                )
            } else if !valid_identifier(command.owner_id@) {
                result matches Err(error) && invalid_identifier(error, "translation owner"@)
            } else if !valid_identifier(model_text(command.model_id)) {
                result matches Err(error) && invalid_identifier(error, "translation model"@)
            } else {
                match current {
                    Some(active) => if active.session_id == command.session_id
                        && active.owner_id@ == owner && active.model_id@ == model {
                        result == Ok::<TranslationReport, ApplicationError>(
                            TranslationReport::Unchanged,
                        )
                    } else if active.session_id != command.session_id || active.owner_id@
                        != owner {
                        result matches Err(error) && resource_conflict(
                            error,
                            "A different translation runtime still owns the active inference slot."@,
                            command.session_id,
                        )
                    } else {
                        result matches Ok(TranslationReport::Acquire(next)) && next.session_id
                            == command.session_id && next.owner_id@ == owner && next.model_id@
                            == model
                    },
                    None => result matches Ok(TranslationReport::Acquire(next)) && next.session_id
                        == command.session_id && next.owner_id@ == owner && next.model_id@
                        == model,
                }
            }
        },
        command.kind == InferenceResourceKind::Translation && command.phase
            == InferenceResourcePhase::Unloaded ==> if !valid_identifier(command.owner_id@) {
            result matches Err(error) && invalid_identifier(error, "translation owner"@)
        } else {
            result == Ok::<TranslationReport, ApplicationError>(
                match current {
                    Some(active) => if active.session_id == command.session_id
                        && active.owner_id@ == trimmed(command.owner_id@) {
                        TranslationReport::Release
                    } else {
                        TranslationReport::Keep
                    },
                    None => TranslationReport::Keep,
                },
            )
        },
{
    proof {
        reveal_strlit("translation owner");
        reveal_strlit("translation model");
        reveal_strlit("");
    }
    if command.kind != InferenceResourceKind::Translation {
        return Err(
            conflict(
                "Only the WebView translation runtime may report frontend inference ownership.",
                command.session_id,
            ),
        );
    }
    match command.phase {
        InferenceResourcePhase::Loaded => {
            let live = snapshot.session_id == Some(command.session_id) && snapshot.mode == Some(
                command.mode,
            ) && (snapshot.lifecycle == SessionLifecycle::Starting || snapshot.lifecycle
                == SessionLifecycle::Running || snapshot.lifecycle == SessionLifecycle::Waiting);
            if !live {
                return Err(
                    conflict(
                        "The translation runtime reported a load for a session that is no longer active.",
                        command.session_id,
                    ),
                );
            }
            let owner_id = match normalized_identifier(command.owner_id.as_str(), "translation owner") {
                Ok(owner_id) => owner_id,
                Err(error) => return Err(error),
            };
            let model_id = match &command.model_id {
                Some(model_id) => normalized_identifier(model_id.as_str(), "translation model"),
                None => normalized_identifier("", "translation model"),
            };
            let model_id = match model_id {
                Ok(model_id) => model_id,
                Err(error) => return Err(error),
            };
            match current {
                Some(active) => {
                    let same_owner = str_eq(active.owner_id.as_str(), owner_id.as_str());
                    if active.session_id == command.session_id && same_owner && str_eq(
                        active.model_id.as_str(),
                        model_id.as_str(),
                    ) {
                        return Ok(TranslationReport::Unchanged);
                    }
                    if active.session_id != command.session_id || !same_owner {
                        return Err(
                            conflict(
                                "A different translation runtime still owns the active inference slot.",
                                command.session_id,
                            ),
                        );
                    }
                },
                None => {},
            }
            Ok(
                TranslationReport::Acquire(
                    TranslationOwner { session_id: command.session_id, owner_id, model_id },
                ),
            )
        },
        InferenceResourcePhase::Unloaded => {
            let owner_id = match normalized_identifier(command.owner_id.as_str(), "translation owner") {
                Ok(owner_id) => owner_id,
                Err(error) => return Err(error),
            };
            match current {
                Some(active) => if active.session_id == command.session_id && str_eq(
                    active.owner_id.as_str(),
                    owner_id.as_str(),
                ) {
                    Ok(TranslationReport::Release)
                } else {
                    Ok(TranslationReport::Keep)
                },
                None => Ok(TranslationReport::Keep),
            }
        },
    }
}

} // verus!
