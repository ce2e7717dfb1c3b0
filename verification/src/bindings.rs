//! The text rules of the TypeScript contract module shared with the
//! WebViews: the constants that name the runtime's commands and events, how
//! a type declaration is exported, and how the module ends. The declarations
//! themselves come from the contract types.

use vstd::prelude::*;
use vstd::string::*;

use crate::contracts::APPLICATION_RUNTIME_CONTRACT_VERSION;
use crate::ipc::{
    CONFIGURATION_SNAPSHOT_COMMAND,
    UPDATE_CONFIGURATION_COMMAND,
    BOOTSTRAP_COMMAND,
    SOURCE_SNAPSHOT_COMMAND,
    START_CAPTURE_COMMAND,
    STOP_CAPTURE_COMMAND,
    CAPTURE_STATUS_COMMAND,
    VISUAL_CAPABILITIES_COMMAND,
    VISUAL_SOURCE_SNAPSHOT_COMMAND,
    VISUAL_STATUS_COMMAND,
    SHOW_VISUAL_REGION_SELECTOR_COMMAND,
    COMPLETE_VISUAL_REGION_SELECTION_COMMAND,
    CANCEL_VISUAL_REGION_SELECTION_COMMAND,
    START_VISUAL_TRANSLATION_COMMAND,
    STOP_VISUAL_TRANSLATION_COMMAND,
    UPDATE_CAPTION_PRESENTATION_COMMAND,
    UPDATE_VISUAL_PRESENTATION_COMMAND,
    INFERENCE_RESOURCE_STATUS_COMMAND,
    REPORT_INFERENCE_RESOURCE_COMMAND,
    STATE_EVENT,
    CAPTURE_STATUS_EVENT,
    VISUAL_STATUS_EVENT,
    VISUAL_TEXT_EVENT,
    VISUAL_CLEAR_EVENT,
    VISUAL_REGION_SELECTED_EVENT,
    VISUAL_REGION_SELECTION_CANCELLED_EVENT,
    VISUAL_REGION_SELECTOR_REQUEST_EVENT,
    CAPTION_PRESENTATION_EVENT,
    VISUAL_PRESENTATION_EVENT,
    CONFIGURATION_EVENT,
};
use crate::model_inspection::joined_with;
use crate::text::{chars_of, decimal, decimal_string};

verus! {

/// One entry of an object literal: `key: "value"`.
pub open spec fn entry_text(entry: (Seq<char>, Seq<char>)) -> Seq<char> {
    entry.0 + ": \""@ + entry.1 + "\""@
}

/// An object literal holding `entries` in order.
pub open spec fn object_literal_spec(entries: Seq<(Seq<char>, Seq<char>)>) -> Seq<char> {
    "{ "@ + joined_with(entries.map_values(|entry: (Seq<char>, Seq<char>)| entry_text(entry)), ", "@)
        + " }"@
}

pub open spec fn entry_views(entries: Seq<(&'static str, &'static str)>) -> Seq<(Seq<char>, Seq<char>)> {
    entries.map_values(|entry: (&'static str, &'static str)| (entry.0@, entry.1@))
}

proof fn joined_step(parts: Seq<Seq<char>>, separator: Seq<char>)
    requires
        parts.len() >= 2,
    ensures
        joined_with(parts, separator) == joined_with(parts.drop_last(), separator) + separator
            + parts.last(),
{
}

/// Writes `entries` as an object literal.
pub fn object_literal(entries: &Vec<(&'static str, &'static str)>) -> (text: String)
    ensures
        text@ == object_literal_spec(entry_views(entries@)),
{
    let ghost texts = entry_views(entries@).map_values(
        |entry: (Seq<char>, Seq<char>)| entry_text(entry),
    );
    let mut body = String::new();
    let mut index: usize = 0;
    while index < entries.len()
        invariant
            index <= entries@.len(),
            texts == entry_views(entries@).map_values(
                |entry: (Seq<char>, Seq<char>)| entry_text(entry),
            ),
            body@ == joined_with(texts.take(index as int), ", "@),
        decreases entries@.len() - index,
    {
        let ghost before = texts.take(index as int);
        let ghost after = texts.take(index + 1);
        assert(after.drop_last() =~= before);
        if index > 0 {
            body.append(", ");
        }
        let (key, value) = entries[index];
        body.append(key);
        body.append(": \"");
        body.append(value);
        body.append("\"");
        proof {
            assert(after.last() == entry_text((key@, value@)));
            if index == 0 {
                assert(before.len() == 0);
                assert(after =~= seq![after[0]]);
                assert(body@ =~= after[0]);
            } else {
                joined_step(after, ", "@);
            }
        }
        index = index + 1;
    }
    assert(texts.take(entries@.len() as int) =~= texts);
    let mut text = String::from_str("{ ");
    text.append(body.as_str());
    text.append(" }");
    text
}

/// The commands of the runtime under the keys the WebViews use.
pub open spec fn command_entries() -> Seq<(Seq<char>, Seq<char>)> {
    seq![
        ("configurationSnapshot"@, CONFIGURATION_SNAPSHOT_COMMAND@),
        ("updateConfiguration"@, UPDATE_CONFIGURATION_COMMAND@),
        ("bootstrap"@, BOOTSTRAP_COMMAND@),
        ("sourceSnapshot"@, SOURCE_SNAPSHOT_COMMAND@),
        ("startCapture"@, START_CAPTURE_COMMAND@),
        ("stopCapture"@, STOP_CAPTURE_COMMAND@),
        ("captureStatus"@, CAPTURE_STATUS_COMMAND@),
        ("visualCapabilities"@, VISUAL_CAPABILITIES_COMMAND@),
        ("visualSourceSnapshot"@, VISUAL_SOURCE_SNAPSHOT_COMMAND@),
        ("visualStatus"@, VISUAL_STATUS_COMMAND@),
        ("showVisualRegionSelector"@, SHOW_VISUAL_REGION_SELECTOR_COMMAND@),
        ("completeVisualRegionSelection"@, COMPLETE_VISUAL_REGION_SELECTION_COMMAND@),
        ("cancelVisualRegionSelection"@, CANCEL_VISUAL_REGION_SELECTION_COMMAND@),
        ("startVisualTranslation"@, START_VISUAL_TRANSLATION_COMMAND@),
        ("stopVisualTranslation"@, STOP_VISUAL_TRANSLATION_COMMAND@),
        ("updateCaptionPresentation"@, UPDATE_CAPTION_PRESENTATION_COMMAND@),
        ("updateVisualPresentation"@, UPDATE_VISUAL_PRESENTATION_COMMAND@),
        ("inferenceResourceStatus"@, INFERENCE_RESOURCE_STATUS_COMMAND@),
        ("reportInferenceResource"@, REPORT_INFERENCE_RESOURCE_COMMAND@),
    ]
}

/// The events of the runtime under the keys the WebViews use.
pub open spec fn event_entries() -> Seq<(Seq<char>, Seq<char>)> {
    seq![
        ("state"@, STATE_EVENT@),
        ("captureStatus"@, CAPTURE_STATUS_EVENT@),
        ("visualStatus"@, VISUAL_STATUS_EVENT@),
        ("visualText"@, VISUAL_TEXT_EVENT@),
        ("visualClear"@, VISUAL_CLEAR_EVENT@),
        ("visualRegionSelected"@, VISUAL_REGION_SELECTED_EVENT@),
        ("visualRegionSelectionCancelled"@, VISUAL_REGION_SELECTION_CANCELLED_EVENT@),
        ("visualRegionSelectorRequest"@, VISUAL_REGION_SELECTOR_REQUEST_EVENT@),
        ("captionPresentation"@, CAPTION_PRESENTATION_EVENT@),
        ("visualPresentation"@, VISUAL_PRESENTATION_EVENT@),
        ("configuration"@, CONFIGURATION_EVENT@),
    ]
}

fn commands() -> (entries: Vec<(&'static str, &'static str)>)
    ensures
        entry_views(entries@) == command_entries(),
{
    let entries = vec![
        ("configurationSnapshot", CONFIGURATION_SNAPSHOT_COMMAND),
        ("updateConfiguration", UPDATE_CONFIGURATION_COMMAND),
        ("bootstrap", BOOTSTRAP_COMMAND),
        ("sourceSnapshot", SOURCE_SNAPSHOT_COMMAND),
        ("startCapture", START_CAPTURE_COMMAND),
        ("stopCapture", STOP_CAPTURE_COMMAND),
        ("captureStatus", CAPTURE_STATUS_COMMAND),
        ("visualCapabilities", VISUAL_CAPABILITIES_COMMAND),
        ("visualSourceSnapshot", VISUAL_SOURCE_SNAPSHOT_COMMAND),
        ("visualStatus", VISUAL_STATUS_COMMAND),
        ("showVisualRegionSelector", SHOW_VISUAL_REGION_SELECTOR_COMMAND),
        ("completeVisualRegionSelection", COMPLETE_VISUAL_REGION_SELECTION_COMMAND),
        ("cancelVisualRegionSelection", CANCEL_VISUAL_REGION_SELECTION_COMMAND),
        ("startVisualTranslation", START_VISUAL_TRANSLATION_COMMAND),
        ("stopVisualTranslation", STOP_VISUAL_TRANSLATION_COMMAND),
        ("updateCaptionPresentation", UPDATE_CAPTION_PRESENTATION_COMMAND),
        ("updateVisualPresentation", UPDATE_VISUAL_PRESENTATION_COMMAND),
        ("inferenceResourceStatus", INFERENCE_RESOURCE_STATUS_COMMAND),
        ("reportInferenceResource", REPORT_INFERENCE_RESOURCE_COMMAND),
    ];
    assert(entry_views(entries@) =~= command_entries());
    entries
}

fn events() -> (entries: Vec<(&'static str, &'static str)>)
    ensures
        entry_views(entries@) == event_entries(),
{
    let entries = vec![
        ("state", STATE_EVENT),
        ("captureStatus", CAPTURE_STATUS_EVENT),
        ("visualStatus", VISUAL_STATUS_EVENT),
        ("visualText", VISUAL_TEXT_EVENT),
        ("visualClear", VISUAL_CLEAR_EVENT),
        ("visualRegionSelected", VISUAL_REGION_SELECTED_EVENT),
        ("visualRegionSelectionCancelled", VISUAL_REGION_SELECTION_CANCELLED_EVENT),
        ("visualRegionSelectorRequest", VISUAL_REGION_SELECTOR_REQUEST_EVENT),
        ("captionPresentation", CAPTION_PRESENTATION_EVENT),
        ("visualPresentation", VISUAL_PRESENTATION_EVENT),
        ("configuration", CONFIGURATION_EVENT),
    ];
    assert(entry_views(entries@) =~= event_entries());
    entries
}

/// The constants the contract module opens with: its version, and the
/// names of the runtime's commands and events.
pub open spec fn contract_constants_spec() -> Seq<char> {
    "export const RUNTIME_CONTRACT_VERSION = "@ + decimal(APPLICATION_RUNTIME_CONTRACT_VERSION as nat)
        + " as const;\n"@ + "export const RUNTIME_COMMANDS = "@ + object_literal_spec(command_entries())
        + " as const;\n"@ + "export const RUNTIME_EVENTS = "@ + object_literal_spec(event_entries())
        + " as const;\n\n"@
}

pub fn contract_constants() -> (text: String)
    ensures
        text@ == contract_constants_spec(),
{
    let mut text = String::from_str("export const RUNTIME_CONTRACT_VERSION = ");
    text.append(decimal_string(APPLICATION_RUNTIME_CONTRACT_VERSION as u64).as_str());
    text.append(" as const;\n");
    text.append("export const RUNTIME_COMMANDS = ");
    text.append(object_literal(&commands()).as_str());
    text.append(" as const;\n");
    text.append("export const RUNTIME_EVENTS = ");
    text.append(object_literal(&events()).as_str());
    text.append(" as const;\n\n");
    text
}

/// Whether `pattern` occurs in `text` at `index`.
pub open spec fn occurs_at(text: Seq<char>, pattern: Seq<char>, index: int) -> bool {
    0 <= index && index + pattern.len() <= text.len() && text.subrange(index, index + pattern.len())
        == pattern
}

/// The first index, from `from` on, at which `pattern` occurs in `text`.
pub open spec fn first_occurrence(text: Seq<char>, pattern: Seq<char>, from: int) -> Option<int>
    decreases text.len() - from,
{
    if from < 0 || from + pattern.len() > text.len() {
        None
    } else if occurs_at(text, pattern, from) {
        Some(from)
    } else if from >= text.len() {
        None
    } else {
        first_occurrence(text, pattern, from + 1)
    }
}

/// Where `export ` goes in a declaration: before it when it begins with a
/// type declaration, else before its first type declaration on a line of
/// its own.
pub open spec fn export_offset(declaration: Seq<char>) -> Option<int> {
    if occurs_at(declaration, "type "@, 0) {
        Some(0)
    } else {
        match first_occurrence(declaration, "\ntype "@, 0) {
            Some(index) => Some(index + 1),
            None => None,
        }
    }
}

/// A declaration with its type exported, followed by a blank line.
pub open spec fn exported_declaration_spec(declaration: Seq<char>) -> Seq<char> {
    let offset = export_offset(declaration)->0;
    declaration.take(offset) + "export "@ + declaration.skip(offset) + "\n\n"@
}

fn occurs_in(chars: &Vec<char>, pattern: &Vec<char>, index: usize) -> (found: bool)
    requires
        index <= chars@.len(),
    ensures
        found == occurs_at(chars@, pattern@, index as int),
{
    let n = chars.len();
    if pattern.len() > n - index {
        return false;
    }
    let mut k: usize = 0;
    while k < pattern.len()
        invariant
            n == chars@.len(),
            index <= chars@.len(),
            index + pattern@.len() <= chars@.len(),
            k <= pattern@.len(),
            forall|q: int| 0 <= q < k ==> chars@[index + q] == pattern@[q],
        decreases pattern@.len() - k,
    {
        if chars[index + k] != pattern[k] {
            assert(chars@.subrange(index as int, index + pattern@.len())[k as int] != pattern@[k as int]);
            return false;
        }
        k = k + 1;
    }
    assert(chars@.subrange(index as int, index + pattern@.len()) =~= pattern@);
    true
}

fn text_of_chars(chars: &Vec<char>, from: usize, to: usize) -> (text: String)
    requires
        from <= to <= chars@.len(),
    ensures
        text@ == chars@.subrange(from as int, to as int),
{
    let mut text = String::new();
    let mut index = from;
    while index < to
        invariant
            from <= index <= to <= chars@.len(),
            text@ == chars@.subrange(from as int, index as int),
        decreases to - index,
    {
        text.push(chars[index]);
        index = index + 1;
        assert(text@ =~= chars@.subrange(from as int, index as int));
    }
    text
}

/// The first index, from `from` on, at which `pattern` occurs in `chars`.
fn find_pattern(chars: &Vec<char>, pattern: &Vec<char>, from: usize) -> (found: Option<usize>)
    requires
        from <= chars@.len(),
        pattern@.len() > 0,
    ensures
        match found {
            Some(index) => first_occurrence(chars@, pattern@, from as int) == Some(index as int)
                && index + pattern@.len() <= chars@.len(),
            None => first_occurrence(chars@, pattern@, from as int) is None,
        },
{
    let n = chars.len();
    let m = pattern.len();
    let mut index = from;
    while index < n
        invariant
            n == chars@.len(),
            m == pattern@.len(),
            from <= index <= chars@.len(),
            pattern@.len() > 0,
            first_occurrence(chars@, pattern@, from as int) == first_occurrence(
                chars@,
                pattern@,
                index as int,
            ),
        decreases chars@.len() - index,
    {
        if occurs_in(chars, pattern, index) {
            return Some(index);
        }
        if m > n - index {
            return None;
        }
        index = index + 1;
    }
    None
}

/// Exports the type that `declaration` declares and ends it with a blank
/// line; a declaration must hold a type declaration.
pub fn exported_declaration(declaration: &str) -> (text: String)
    requires
        export_offset(declaration@) is Some,
    ensures
        text@ == exported_declaration_spec(declaration@),
{
    proof {
        reveal_strlit("type ");
        reveal_strlit("\ntype ");
    }
    let chars = chars_of(declaration);
    let at_start = chars_of("type ");
    let on_line = chars_of("\ntype ");
    let total = chars.len();
    let offset: usize = if occurs_in(&chars, &at_start, 0) {
        0
    } else {
        match find_pattern(&chars, &on_line, 0) {
            Some(index) => {
                assert(on_line@.len() == 6);
                assert(index < total);
                index + 1
            },
            None => 0,
        }
    };
    assert(export_offset(declaration@) == Some(offset as int));
    let mut text = text_of_chars(&chars, 0, offset);
    text.append("export ");
    text.append(text_of_chars(&chars, offset, chars.len()).as_str());
    text.append("\n\n");
    assert(chars@.subrange(0, offset as int) =~= declaration@.take(offset as int));
    assert(chars@.subrange(offset as int, chars@.len() as int) =~= declaration@.skip(offset as int));
    text
}

/// `text` without the trailing line breaks that leave it ending in a
/// blank line: at most one line break is left at its end.
pub open spec fn without_trailing_blank_lines_spec(text: Seq<char>) -> Seq<char>
    decreases text.len(),
{
    if text.len() >= 2 && text[text.len() - 1] == '\n' && text[text.len() - 2] == '\n' {
        without_trailing_blank_lines_spec(text.drop_last())
    } else {
        text
    }
}

pub fn without_trailing_blank_lines(text: &str) -> (trimmed: String)
    ensures
        trimmed@ == without_trailing_blank_lines_spec(text@),
{
    let chars = chars_of(text);
    let mut end = chars.len();
    assert(chars@.take(end as int) =~= chars@);
    while end >= 2 && chars[end - 1] == '\n' && chars[end - 2] == '\n'
        invariant
            chars@ == text@,
            end <= chars@.len(),
            without_trailing_blank_lines_spec(text@) == without_trailing_blank_lines_spec(
                chars@.take(end as int),
            ),
        decreases end,
    {
        assert(chars@.take(end as int).drop_last() =~= chars@.take(end - 1));
        end = end - 1;
    }
    text_of_chars(&chars, 0, end)
}

/// The closing constant of the contract module: the default configuration,
/// given as JSON, typed as an application configuration.
pub fn default_configuration_constant(json: &str) -> (text: String)
    ensures
        text@ == "\n\nexport const DEFAULT_APPLICATION_CONFIGURATION = "@ + json@
            + " as const satisfies ApplicationConfiguration;\n"@,
{
    let mut text = String::from_str("\n\nexport const DEFAULT_APPLICATION_CONFIGURATION = ");
    text.append(json);
    text.append(" as const satisfies ApplicationConfiguration;\n");
    text
}

} // verus!
