//! The request rules of the private protocol that serves verified translation
//! model artifacts to the main WebView: which resource a path names, and
//! which bytes a `Range` header asks for.

use vstd::prelude::*;
use vstd::string::*;

use crate::models::{first_with, first_with_scan, TranslationStorageCatalog, TranslationModelPhase};
use crate::speech::str_eq;
use crate::text::{chars_of, decimal, decimal_string, parse_unsigned, parsed_unsigned};

verus! {

/// The first path segment of every model resource.
pub const MODEL_PROTOCOL_PREFIX: &'static str = "translation";

/// The resource that asks whether a model still passes verification.
pub const VERIFIED_RESOURCE: &'static str = "verified";

/// The most bytes one range request is answered with.
pub const MAX_PROTOCOL_CHUNK_BYTES: u64 = 4194304;

/// HTTP 404, for a resource that does not exist.
pub const STATUS_NOT_FOUND: u16 = 404;

/// HTTP 400, for a request that lacks what the protocol needs.
pub const STATUS_BAD_REQUEST: u16 = 400;

/// HTTP 409, for a model whose files no longer match what was verified.
pub const STATUS_CONFLICT: u16 = 409;

/// HTTP 416, for a range that cannot be served.
pub const STATUS_RANGE_NOT_SATISFIABLE: u16 = 416;

/// The index of the first `c` in `text`.
pub open spec fn first_index(text: Seq<char>, c: char) -> Option<int>
    decreases text.len(),
{
    if text.len() == 0 {
        None
    } else if text[0] == c {
        Some(0)
    } else {
        match first_index(text.drop_first(), c) {
            Some(i) => Some(i + 1),
            None => None,
        }
    }
}

/// `text` without its leading slashes.
pub open spec fn without_leading_slashes(text: Seq<char>) -> Seq<char>
    decreases text.len(),
{
    if text.len() > 0 && text[0] == '/' {
        without_leading_slashes(text.drop_first())
    } else {
        text
    }
}

/// The rejection of a request: its HTTP status and the message sent back.
pub open spec fn rejection(status: u16, message: &str) -> Result<(Seq<char>, Seq<char>), (u16, Seq<char>)> {
    Err((status, message@))
}

/// The model and the resource of it that a protocol path names, or the
/// rejection of the path.
pub open spec fn resource_of_path(path: Seq<char>) -> Result<(Seq<char>, Seq<char>), (u16, Seq<char>)> {
    let trimmed = without_leading_slashes(path);
    match first_index(trimmed, '/') {
        None => if trimmed == MODEL_PROTOCOL_PREFIX@ {
            rejection(STATUS_NOT_FOUND, "Missing model identifier.")
        } else {
            rejection(STATUS_NOT_FOUND, "Unknown model resource.")
        },
        Some(first) => if trimmed.take(first) != MODEL_PROTOCOL_PREFIX@ {
            rejection(STATUS_NOT_FOUND, "Unknown model resource.")
        } else {
            let rest = trimmed.skip(first + 1);
            match first_index(rest, '/') {
                None => rejection(STATUS_NOT_FOUND, "Missing model resource."),
                Some(second) => {
                    let resource = rest.skip(second + 1);
                    if resource.len() == 0 {
                        rejection(STATUS_NOT_FOUND, "Missing model resource.")
                    } else {
                        Ok((rest.take(second), resource))
                    }
                },
            }
        },
    }
}

fn find_char(chars: &Vec<char>, from: usize, c: char) -> (found: Option<usize>)
    requires
        from <= chars@.len(),
    ensures
        first_index(chars@.skip(from as int), c) == match found {
            Some(i) => Some(i - from),
            None => None,
        },
        found matches Some(i) ==> from <= i < chars@.len(),
{
    let mut index = chars.len();
    let ghost text = chars@.skip(from as int);
    // Scan from the end, keeping the first occurrence seen so far.
    let mut found: Option<usize> = None;
    while index > from
        invariant
            from <= index <= chars@.len(),
            text == chars@.skip(from as int),
            first_index(chars@.skip(index as int), c) == match found {
                Some(i) => Some(i - index),
                None => None,
            },
            found matches Some(i) ==> index <= i < chars@.len(),
        decreases index - from,
    {
        index = index - 1;
        assert(chars@.skip(index as int).drop_first() =~= chars@.skip(index + 1));
        if chars[index] == c {
            found = Some(index);
        }
    }
    found
}

proof fn leading_slashes_removed(text: Seq<char>, count: int)
    requires
        0 <= count <= text.len(),
        forall|i: int| 0 <= i < count ==> text[i] == '/',
    ensures
        without_leading_slashes(text) == without_leading_slashes(text.skip(count)),
    decreases count,
{
    if count > 0 {
        assert(text.skip(1) =~= text.drop_first());
        leading_slashes_removed(text.drop_first(), count - 1);
        assert(text.drop_first().skip(count - 1) =~= text.skip(count));
    } else {
        assert(text.skip(0) =~= text);
    }
}

fn text_of(chars: &Vec<char>, from: usize, to: usize) -> (text: String)
    requires
        from <= to <= chars@.len(),
    ensures
        text@ == chars@.subrange(from as int, to as int),
{
    let mut text = String::new();
    let mut index = from;
    while index < to
        invariant
            from <= index <= to <= chars@.len(),
            text@ == chars@.subrange(from as int, index as int),
        decreases to - index,
    {
        text.push(chars[index]);
        index = index + 1;
        assert(text@ =~= chars@.subrange(from as int, index as int));
    }
    text
}

fn equals_text(chars: &Vec<char>, from: usize, to: usize, expected: &str) -> (equal: bool)
    requires
        from <= to <= chars@.len(),
    ensures
        equal == (chars@.subrange(from as int, to as int) == expected@),
{
    let wanted = chars_of(expected);
    if wanted.len() != to - from {
        return false;
    }
    let mut index: usize = 0;
    while index < wanted.len()
        invariant
            from <= to <= chars@.len(),
            wanted@ == expected@,
            wanted@.len() == to - from,
            index <= wanted@.len(),
            forall|j: int| 0 <= j < index ==> chars@[from + j] == #[trigger] wanted@[j],
        decreases wanted@.len() - index,
    {
        if chars[from + index] != wanted[index] {
            assert(chars@.subrange(from as int, to as int)[index as int] != wanted@[index as int]);
            return false;
        }
        index = index + 1;
    }
    assert(chars@.subrange(from as int, to as int) =~= wanted@);
    true
}

fn reject(status: u16, message: &str) -> (result: Result<(String, String), (u16, String)>)
    ensures
        result matches Err((code, text)) && code == status && text@ == message@,
{
    Err((status, String::from_str(message)))
}

/// Splits a protocol path into the model it names and the resource of that
/// model, or rejects it.
pub fn parse_resource_path(path: &str) -> (result: Result<(String, String), (u16, String)>)
    ensures
        match resource_of_path(path@) {
            Ok((storage_id, resource)) => result matches Ok((id, name)) && id@ == storage_id
                && name@ == resource,
            Err((status, message)) => result matches Err((code, text)) && code == status && text@
                == message,
        },
{
    let chars = chars_of(path);
    let mut start: usize = 0;
    while start < chars.len() && chars[start] == '/'
        invariant
            start <= chars@.len(),
            forall|i: int| 0 <= i < start ==> chars@[i] == '/',
        decreases chars@.len() - start,
    {
        start = start + 1;
    }
    proof {
        leading_slashes_removed(chars@, start as int);
        assert(chars@.skip(start as int).len() == 0 || chars@.skip(start as int)[0] != '/');
    }
    let ghost trimmed = chars@.skip(start as int);
    assert(without_leading_slashes(path@) == trimmed);
    match find_char(&chars, start, '/') {
        None => {
            assert(trimmed =~= chars@.subrange(start as int, chars@.len() as int));
            if equals_text(&chars, start, chars.len(), MODEL_PROTOCOL_PREFIX) {
                reject(STATUS_NOT_FOUND, "Missing model identifier.")
            } else {
                reject(STATUS_NOT_FOUND, "Unknown model resource.")
            }
        },
        Some(first) => {
            assert(trimmed.take(first - start) =~= chars@.subrange(start as int, first as int));
            if !equals_text(&chars, start, first, MODEL_PROTOCOL_PREFIX) {
                return reject(STATUS_NOT_FOUND, "Unknown model resource.");
            }
            assert(trimmed.skip(first - start + 1) =~= chars@.skip(first + 1));
            match find_char(&chars, first + 1, '/') {
                None => reject(STATUS_NOT_FOUND, "Missing model resource."),
                Some(second) => {
                    let ghost rest = chars@.skip(first + 1);
                    assert(rest.skip(second - first) =~= chars@.subrange(
                        second + 1,
                        chars@.len() as int,
                    ));
                    assert(rest.take(second - first - 1) =~= chars@.subrange(
                        first + 1,
                        second as int,
                    ));
                    if second + 1 == chars.len() {
                        return reject(STATUS_NOT_FOUND, "Missing model resource.");
                    }
                    let storage_id = text_of(&chars, first + 1, second);
                    let resource = text_of(&chars, second + 1, chars.len());
                    Ok((storage_id, resource))
                },
            }
        },
    }
}

/// The bytes `[start, end]` that a `Range` header asks for, of an artifact
/// of `total_bytes` bytes, at most `MAX_PROTOCOL_CHUNK_BYTES` of them; or the
/// rejection of the header.
pub open spec fn range_of(value: Seq<char>, total_bytes: u64) -> Result<(u64, u64), (u16, Seq<char>)> {
    let prefix = "bytes="@;
    if !(value.len() >= prefix.len() && value.take(prefix.len() as int) == prefix) {
        Err((STATUS_RANGE_NOT_SATISFIABLE, "Only byte ranges are supported."@))
    } else {
        let raw = value.skip(prefix.len() as int);
        if first_index(raw, ',') is Some {
            Err((STATUS_RANGE_NOT_SATISFIABLE, "Multipart model ranges are not supported."@))
        } else {
            match first_index(raw, '-') {
                None => Err((STATUS_RANGE_NOT_SATISFIABLE, "The model byte range is invalid."@)),
                Some(dash) => match parsed_unsigned(raw.take(dash), u64::MAX as nat) {
                    None => Err(
                        (STATUS_RANGE_NOT_SATISFIABLE, "The model byte range start is invalid."@),
                    ),
                    Some(start) => if start >= total_bytes {
                        Err(
                            (
                                STATUS_RANGE_NOT_SATISFIABLE,
                                "The model byte range begins after the artifact."@,
                            ),
                        )
                    } else {
                        let end_text = raw.skip(dash + 1);
                        let requested = if end_text.len() == 0 {
                            Some((total_bytes - 1) as nat)
                        } else {
                            parsed_unsigned(end_text, u64::MAX as nat)
                        };
                        match requested {
                            None => Err(
                                (
                                    STATUS_RANGE_NOT_SATISFIABLE,
                                    "The model byte range end is invalid."@,
                                ),
                            ),
                            Some(end) => if end < start {
                                Err(
                                    (
                                        STATUS_RANGE_NOT_SATISFIABLE,
                                        "The model byte range is reversed."@,
                                    ),
                                )
                            } else {
                                let last = total_bytes - 1;
                                let chunk_last = start + MAX_PROTOCOL_CHUNK_BYTES - 1;
                                let bounded = if end <= last && end <= chunk_last {
                                    end
                                } else if last <= chunk_last {
                                    last as nat
                                } else {
                                    chunk_last as nat
                                };
                                Ok((start as u64, bounded as u64))
                            },
                        }
                    },
                },
            }
        }
    }
}

fn range_rejection(message: &str) -> (result: Result<(u64, u64), (u16, String)>)
    ensures
        result matches Err((code, text)) && code == STATUS_RANGE_NOT_SATISFIABLE && text@
            == message@,
{
    Err((STATUS_RANGE_NOT_SATISFIABLE, String::from_str(message)))
}

/// Reads a `Range` header for an artifact of `total_bytes` bytes.
pub fn parse_range(value: &str, total_bytes: u64) -> (result: Result<(u64, u64), (u16, String)>)
    ensures
        match range_of(value@, total_bytes) {
            Ok(range) => result == Ok::<(u64, u64), (u16, String)>(range),
            Err((status, message)) => result matches Err((code, text)) && code == status && text@
                == message,
        },
{
    proof {
        reveal_strlit("bytes=");
    }
    let chars = chars_of(value);
    if !(chars.len() >= 6 && equals_text(&chars, 0, 6, "bytes=")) {
        proof {
            if chars@.len() >= 6 {
                assert(chars@.subrange(0, 6) =~= chars@.take(6));
            }
        }
        return range_rejection("Only byte ranges are supported.");
    }
    assert(chars@.subrange(0, 6) =~= chars@.take(6));
    let ghost raw = chars@.skip(6);
    if find_char(&chars, 6, ',').is_some() {
        return range_rejection("Multipart model ranges are not supported.");
    }
    let dash = match find_char(&chars, 6, '-') {
        Some(dash) => dash,
        None => return range_rejection("The model byte range is invalid."),
    };
    assert(raw.take(dash - 6) =~= chars@.subrange(6, dash as int));
    let start = match parse_unsigned(&chars, 6, dash, u64::MAX) {
        Some(start) => start,
        None => return range_rejection("The model byte range start is invalid."),
    };
    if start >= total_bytes {
        return range_rejection("The model byte range begins after the artifact.");
    }
    assert(raw.skip(dash - 6 + 1) =~= chars@.subrange(dash + 1, chars@.len() as int));
    let requested_end = if dash + 1 == chars.len() {
        total_bytes - 1
    } else {
        match parse_unsigned(&chars, dash + 1, chars.len(), u64::MAX) {
            Some(end) => end,
            None => return range_rejection("The model byte range end is invalid."),
        }
    };
    if requested_end < start {
        return range_rejection("The model byte range is reversed.");
    }
    let chunk_last = start.saturating_add(MAX_PROTOCOL_CHUNK_BYTES - 1);
    let last = total_bytes - 1;
    let mut bounded = requested_end;
    if last < bounded {
        bounded = last;
    }
    if chunk_last < bounded {
        bounded = chunk_last;
    }
    Ok((start, bounded))
}

/// A range that is served lies inside the artifact and is at most one
/// chunk long.
pub proof fn served_ranges_are_bounded(value: Seq<char>, total_bytes: u64)
    ensures
        range_of(value, total_bytes) matches Ok((start, end)) ==> start <= end && end
            < total_bytes && end - start < MAX_PROTOCOL_CHUNK_BYTES,
{
}

/// One file of a model's manifest: its path inside the model directory and
/// its size.
#[derive(Clone, Debug, PartialEq, Eq)]
pub struct ArtifactEntry {
    pub path: String,
    pub size_bytes: u64,
}

/// Whether the model stored under `storage_id` may be served: the catalog
/// must list it as ready.
pub fn require_ready_model(catalog: &TranslationStorageCatalog, storage_id: &str) -> (result: Result<(), (u16, String)>)
    ensures
        result is Ok <==> exists|i: int|
            0 <= i < catalog.models@.len() && (#[trigger] catalog.models@[i]).storage_id@
                == storage_id@ && catalog.models@[i].phase == TranslationModelPhase::Ready,
        result matches Err((code, text)) ==> code == STATUS_NOT_FOUND && text@
            == "The native model is not ready."@,
{
    if catalog.is_ready(storage_id) {
        Ok(())
    } else {
        Err((STATUS_NOT_FOUND, String::from_str("The native model is not ready.")))
    }
}

/// The answer to the verification resource: the model must still pass
/// verification on disk.
pub fn require_verified_model(still_verified: bool) -> (result: Result<(), (u16, String)>)
    ensures
        result is Ok <==> still_verified,
        result matches Err((code, text)) ==> code == STATUS_CONFLICT && text@
            == "The native model no longer passes verification."@,
{
    if still_verified {
        Ok(())
    } else {
        Err((STATUS_CONFLICT, String::from_str("The native model no longer passes verification.")))
    }
}

/// The index of the first manifest artifact at `path`.
pub open spec fn artifact_index(artifacts: Seq<ArtifactEntry>, path: Seq<char>) -> Option<int> {
    first_with(artifacts, |artifact: ArtifactEntry| artifact.path@, path)
}

/// Finds the manifest artifact that a resource names; only a path that the
/// manifest lists can be served, whatever else the request holds.
pub fn find_artifact(artifacts: &Vec<ArtifactEntry>, resource: &str) -> (result: Result<usize, (u16, String)>)
    ensures
        match artifact_index(artifacts@, resource@) {
            Some(i) => result == Ok::<usize, (u16, String)>(i as usize),
            None => result matches Err((code, text)) && code == STATUS_NOT_FOUND && text@
                == "Unknown model artifact."@,
        },
        result matches Ok(i) ==> i < artifacts@.len() && artifacts@[i as int].path@ == resource@,
{
    let mut index: usize = 0;
    while index < artifacts.len()
        invariant
            index <= artifacts@.len(),
            forall|j: int| 0 <= j < index ==> (#[trigger] artifacts@[j]).path@ != resource@,
        decreases artifacts@.len() - index,
    {
        if str_eq(artifacts[index].path.as_str(), resource) {
            proof {
                first_with_scan(artifacts@, |artifact: ArtifactEntry| artifact.path@, resource@, index as int);
            }
            return Ok(index);
        }
        index = index + 1;
    }
    proof {
        first_with_scan(artifacts@, |artifact: ArtifactEntry| artifact.path@, resource@, index as int);
    }
    Err((STATUS_NOT_FOUND, String::from_str("Unknown model artifact.")))
}

/// The bytes of an artifact of `size_bytes` bytes that a request asks for:
/// it must carry a `Range` header, read as `parse_range` reads it.
pub fn artifact_range(range: Option<&str>, size_bytes: u64) -> (result: Result<(u64, u64), (u16, String)>)
    ensures
        match range {
            None => result matches Err((code, text)) && code == STATUS_BAD_REQUEST && text@
                == "Native model artifacts require an explicit byte range."@,
            Some(value) => match range_of(value@, size_bytes) {
                Ok(bytes) => result == Ok::<(u64, u64), (u16, String)>(bytes),
                Err((status, message)) => result matches Err((code, text)) && code == status
                    && text@ == message,
            },
        },
{
    match range {
        None => Err(
            (
                STATUS_BAD_REQUEST,
                String::from_str("Native model artifacts require an explicit byte range."),
            ),
        ),
        Some(value) => parse_range(value, size_bytes),
    }
}

/// The artifact file on disk must still have the size its manifest gives.
pub fn require_artifact_size(actual_bytes: u64, expected_bytes: u64) -> (result: Result<(), (u16, String)>)
    ensures
        result is Ok <==> actual_bytes == expected_bytes,
        result matches Err((code, text)) ==> code == STATUS_CONFLICT && text@
            == "The native model artifact changed size ("@ + decimal(actual_bytes as nat)
            + " instead of "@ + decimal(expected_bytes as nat) + ")."@,
{
    if actual_bytes == expected_bytes {
        return Ok(());
    }
    let mut message = String::from_str("The native model artifact changed size (");
    message.append(decimal_string(actual_bytes).as_str());
    message.append(" instead of ");
    message.append(decimal_string(expected_bytes).as_str());
    message.append(").");
    Err((STATUS_CONFLICT, message))
}

/// The ending that marks a JSON artifact.
pub open spec fn json_suffix() -> Seq<char> {
    seq!['.', 'j', 's', 'o', 'n']
}

/// Whether an artifact is served as JSON: its path ends with `.json`.
pub open spec fn is_json_path(path: Seq<char>) -> bool {
    path.len() >= 5 && path.skip(path.len() - 5) == json_suffix()
}

/// Whether the artifact at `path` is served as JSON rather than as bytes.
pub fn is_json_artifact(path: &str) -> (json: bool)
    ensures
        json == is_json_path(path@),
{
    let chars = chars_of(path);
    let n = chars.len();
    if n < 5 {
        return false;
    }
    let matches = chars[n - 5] == '.' && chars[n - 4] == 'j' && chars[n - 3] == 's' && chars[n - 2]
        == 'o' && chars[n - 1] == 'n';
    let ghost tail = chars@.skip(n - 5);
    if matches {
        assert(tail =~= json_suffix());
    } else {
        assert(tail != json_suffix()) by {
            if tail == json_suffix() {
                assert(tail[0] == chars@[n - 5] && tail[1] == chars@[n - 4] && tail[2] == chars@[n - 3]);
                assert(tail[3] == chars@[n - 2] && tail[4] == chars@[n - 1]);
            }
        }
    }
    matches
}

} // verus!
