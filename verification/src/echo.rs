//! Recognising the overlay's own translated text when the screen reader
//! captures it again, so that it is not sent for translation a second time.

use vstd::prelude::*;
use vstd::string::*;

use crate::text::chars_of;

verus! {

/// At most this many characters of normalised text are compared.
pub const MAX_NORMALIZED_CHARS: usize = 500;

/// Whether `c` is alphabetic or numeric in the Unicode sense, as
/// `char::is_alphanumeric` reports it.
pub uninterp spec fn alphanumeric(c: char) -> bool;

/// The lowercase mapping of `c`, as the characters `char::to_lowercase`
/// yields.
pub uninterp spec fn lowercase(c: char) -> Seq<char>;

/// `char::is_alphanumeric`: its result is the Unicode property named
/// `alphanumeric`, a function of the character alone.
#[verifier::external_body]
fn is_alphanumeric(c: char) -> (result: bool)
    ensures
        result == alphanumeric(c),
{
    c.is_alphanumeric()
}

/// `char::to_lowercase`, collected: the characters of the lowercase mapping
/// named `lowercase`, a function of the character alone.
#[verifier::external_body]
fn to_lowercase(c: char) -> (lower: Vec<char>)
    ensures
        lower@ == lowercase(c),
{
    c.to_lowercase().collect()
}

/// `String::push` appends one character.
pub assume_specification[ String::push ](string: &mut String, ch: char)
    ensures
        final(string)@ == old(string)@.push(ch),
;

/// The alphanumeric characters of `text`, each replaced by its lowercase
/// mapping.
pub open spec fn folded(text: Seq<char>) -> Seq<char>
    decreases text.len(),
{
    if text.len() == 0 {
        Seq::empty()
    } else {
        let c = text.last();
        folded(text.drop_last()) + if alphanumeric(c) {
            lowercase(c)
        } else {
            Seq::empty()
        }
    }
}

/// The first `limit` characters of `text`, or all of it when shorter.
pub open spec fn truncated(text: Seq<char>, limit: nat) -> Seq<char> {
    if text.len() <= limit {
        text
    } else {
        text.take(limit as int)
    }
}

/// The form in which overlay text is compared: lowercase letters and digits
/// only, at most `MAX_NORMALIZED_CHARS` of them.
pub open spec fn normalized(text: Seq<char>) -> Seq<char> {
    truncated(folded(text), MAX_NORMALIZED_CHARS as nat)
}

/// Whether `needle` occurs in `haystack` as a contiguous run.
pub open spec fn occurs_in(needle: Seq<char>, haystack: Seq<char>) -> bool {
    exists|start: int|
        0 <= start && start + needle.len() <= haystack.len() && #[trigger] haystack.subrange(
            start,
            start + needle.len(),
        ) == needle
}

/// Whether the normalised `candidate` repeats the normalised overlay text
/// `echo`: equal, or, for candidates of six characters or more, one inside
/// the other. Echoes shorter than four characters never match.
pub open spec fn echoes_overlay(candidate: Seq<char>, echo: Seq<char>) -> bool {
    echo.len() >= 4 && (candidate == echo || (candidate.len() >= 6 && (occurs_in(echo, candidate)
        || occurs_in(candidate, echo))))
}

/// Whether recognised `text` is the overlay's own output, given the
/// normalised texts the overlay currently shows.
pub open spec fn is_overlay_echo(text: Seq<char>, echoes: Seq<Seq<char>>) -> bool {
    let candidate = normalized(text);
    candidate.len() >= 4 && exists|k: int| 0 <= k < echoes.len() && echoes_overlay(
        candidate,
        #[trigger] echoes[k],
    )
}

proof fn folded_step(text: Seq<char>, index: int)
    requires
        0 <= index < text.len(),
    ensures
        folded(text.take(index + 1)) == folded(text.take(index)) + if alphanumeric(text[index]) {
            lowercase(text[index])
        } else {
            Seq::empty()
        },
{
    assert(text.take(index + 1).drop_last() =~= text.take(index));
    assert(text.take(index + 1).last() == text[index]);
}

proof fn truncated_push(text: Seq<char>, c: char, limit: nat)
    ensures
        truncated(text.push(c), limit) == if truncated(text, limit).len() < limit {
            truncated(text, limit).push(c)
        } else {
            truncated(text, limit)
        },
{
    if text.len() < limit {
        assert(truncated(text.push(c), limit) =~= text.push(c));
    } else {
        assert(truncated(text.push(c), limit) =~= text.take(limit as int));
        assert(truncated(text, limit) =~= text.take(limit as int));
    }
}

/// Lowercases the letters and digits of `text`, drops everything else and
/// keeps the first `MAX_NORMALIZED_CHARS` characters.
pub fn normalize_overlay_text(text: &str) -> (result: String)
    ensures
        result@ == normalized(text@),
{
    let length = text.unicode_len();
    let mut result = String::new();
    let mut count: usize = 0;
    let mut index: usize = 0;
    while index < length
        invariant
            length == text@.len(),
            index <= length,
            count == result@.len(),
            result@ == truncated(folded(text@.take(index as int)), MAX_NORMALIZED_CHARS as nat),
        decreases length - index,
    {
        let c = text.get_char(index);
        proof {
            folded_step(text@, index as int);
        }
        if is_alphanumeric(c) {
            let lower = to_lowercase(c);
            let ghost before = folded(text@.take(index as int));
            let mut k: usize = 0;
            while k < lower.len()
                invariant
                    k <= lower@.len(),
                    count == result@.len(),
                    result@ == truncated(before + lower@.take(k as int), MAX_NORMALIZED_CHARS as nat),
                decreases lower@.len() - k,
            {
                proof {
                    assert(before + lower@.take(k + 1) =~= (before + lower@.take(k as int)).push(
                        lower@[k as int],
                    ));
                    truncated_push(
                        before + lower@.take(k as int),
                        lower@[k as int],
                        MAX_NORMALIZED_CHARS as nat,
                    );
                }
                if count < MAX_NORMALIZED_CHARS {
                    result.push(lower[k]);
                    count = count + 1;
                }
                k = k + 1;
            }
            assert(lower@.take(lower@.len() as int) =~= lower@);
        } else {
            assert(folded(text@.take(index as int)) + Seq::<char>::empty() =~= folded(
                text@.take(index as int),
            ));
        }
        index = index + 1;
    }
    assert(text@.take(length as int) =~= text@);
    result
}

fn occurs_at(needle: &Vec<char>, haystack: &Vec<char>, start: usize) -> (found: bool)
    requires
        start + needle@.len() <= haystack@.len(),
    ensures
        found == (haystack@.subrange(start as int, start + needle@.len()) == needle@),
{
    let haystack_length = haystack.len();
    let mut offset: usize = 0;
    while offset < needle.len()
        invariant
            haystack_length == haystack@.len(),
            start + needle@.len() <= haystack@.len(),
            offset <= needle@.len(),
            forall|j: int| 0 <= j < offset ==> haystack@[start + j] == #[trigger] needle@[j],
        decreases needle@.len() - offset,
    {
        if haystack[start + offset] != needle[offset] {
            assert(haystack@.subrange(start as int, start + needle@.len())[offset as int]
                != needle@[offset as int]);
            return false;
        }
        offset = offset + 1;
    }
    assert(haystack@.subrange(start as int, start + needle@.len()) =~= needle@);
    true
}

/// Whether `needle` occurs in `haystack` as a contiguous run.
fn occurs(needle: &Vec<char>, haystack: &Vec<char>) -> (found: bool)
    ensures
        found == occurs_in(needle@, haystack@),
{
    if needle.len() > haystack.len() {
        return false;
    }
    let last = haystack.len() - needle.len();
    let mut start: usize = 0;
    loop
        invariant
            last + needle@.len() == haystack@.len(),
            start <= last,
            forall|s: int|
                0 <= s < start ==> #[trigger] haystack@.subrange(s, s + needle@.len()) != needle@,
        decreases last - start,
    {
        if occurs_at(needle, haystack, start) {
            return true;
        }
        if start == last {
            return false;
        }
        start = start + 1;
    }
}

/// Whether recognised `text` repeats one of `echoes`, the normalised texts
/// that the overlay currently shows.
pub fn matches_overlay_echo(text: &str, echoes: &[String]) -> (matched: bool)
    ensures
        matched == is_overlay_echo(text@, echoes@.map_values(|echo: String| echo@)),
{
    let ghost views = echoes@.map_values(|echo: String| echo@);
    let normalized_text = normalize_overlay_text(text);
    let candidate = chars_of(normalized_text.as_str());
    if candidate.len() < 4 {
        return false;
    }
    let mut k: usize = 0;
    while k < echoes.len()
        invariant
            views == echoes@.map_values(|echo: String| echo@),
            candidate@ == normalized(text@),
            normalized_text@ == candidate@,
            candidate@.len() >= 4,
            k <= echoes@.len(),
            forall|j: int| 0 <= j < k ==> !echoes_overlay(candidate@, #[trigger] views[j]),
        decreases echoes@.len() - k,
    {
        let echo = chars_of(echoes[k].as_str());
        assert(echo@ == views[k as int]);
        if echo.len() >= 4 && (normalized_text == echoes[k] || (candidate.len() >= 6 && (occurs(
            &echo,
            &candidate,
        ) || occurs(&candidate, &echo)))) {
            assert(echoes_overlay(candidate@, views[k as int]));
            return true;
        }
        k = k + 1;
    }
    false
}

} // verus!
