//! Text building blocks shared by the contract messages.

use vstd::prelude::*;
use vstd::string::*;

verus! {

/// The ASCII digit for `d`, for `d` below ten.
pub open spec fn digit_char(d: nat) -> char {
    if d == 0 { '0' }
    else if d == 1 { '1' }
    else if d == 2 { '2' }
    else if d == 3 { '3' }
    else if d == 4 { '4' }
    else if d == 5 { '5' }
    else if d == 6 { '6' }
    else if d == 7 { '7' }
    else if d == 8 { '8' }
    else { '9' }
}

/// The decimal rendering of `n`, without sign or leading zeros.
pub open spec fn decimal(n: nat) -> Seq<char>
    decreases n,
{
    if n < 10 {
        seq![digit_char(n)]
    } else {
        decimal(n / 10).push(digit_char(n % 10))
    }
}

fn digit_str(d: u64) -> (s: &'static str)
    requires
        d < 10,
    ensures
        s@ == seq![digit_char(d as nat)],
{
    proof {
        reveal_strlit("0");
        reveal_strlit("1");
        reveal_strlit("2");
        reveal_strlit("3");
        reveal_strlit("4");
        reveal_strlit("5");
        reveal_strlit("6");
        reveal_strlit("7");
        reveal_strlit("8");
        reveal_strlit("9");
    }
    if d == 0 { "0" }
    else if d == 1 { "1" }
    else if d == 2 { "2" }
    else if d == 3 { "3" }
    else if d == 4 { "4" }
    else if d == 5 { "5" }
    else if d == 6 { "6" }
    else if d == 7 { "7" }
    else if d == 8 { "8" }
    else { "9" }
}

/// Renders `n` in decimal.
pub fn decimal_string(n: u64) -> (s: String)
    ensures
        s@ == decimal(n as nat),
    decreases n,
{
    if n < 10 {
        String::from_str(digit_str(n))
    } else {
        let mut s = decimal_string(n / 10);
        s.append(digit_str(n % 10));
        s
    }
}

/// The Unicode `White_Space` property, which `char::is_whitespace` and
/// `str::trim` use.
pub open spec fn white_space(c: char) -> bool {
    let u = c as u32;
    ||| 0x09 <= u <= 0x0d
    ||| u == 0x20
    ||| u == 0x85
    ||| u == 0xa0
    ||| u == 0x1680
    ||| 0x2000 <= u <= 0x200a
    ||| u == 0x2028
    ||| u == 0x2029
    ||| u == 0x202f
    ||| u == 0x205f
    ||| u == 0x3000
}

pub fn is_white_space(c: char) -> (white: bool)
    ensures
        white == white_space(c),
{
    let u = c as u32;
    (0x09 <= u && u <= 0x0d) || u == 0x20 || u == 0x85 || u == 0xa0 || u == 0x1680 || (0x2000
        <= u && u <= 0x200a) || u == 0x2028 || u == 0x2029 || u == 0x202f || u == 0x205f || u
        == 0x3000
}

/// Text that is empty once surrounding white space is trimmed.
pub open spec fn blank(text: Seq<char>) -> bool {
    forall|i: int| 0 <= i < text.len() ==> white_space(#[trigger] text[i])
}

pub fn is_blank(text: &str) -> (is: bool)
    ensures
        is == blank(text@),
{
    let length = text.unicode_len();
    let mut index: usize = 0;
    while index < length
        invariant
            length == text@.len(),
            index <= length,
            forall|i: int| 0 <= i < index ==> white_space(#[trigger] text@[i]),
        decreases length - index,
    {
        if !is_white_space(text.get_char(index)) {
            return false;
        }
        index = index + 1;
    }
    true
}

/// The length of `text` in UTF-8 bytes.
pub open spec fn byte_len(text: Seq<char>) -> nat {
    vstd::utf8::encode_utf8(text).len()
}

pub fn byte_length(text: &str) -> (length: usize)
    ensures
        length == byte_len(text@),
{
    text.as_bytes().len()
}


/// The characters of `text`, one by one.
pub fn chars_of(text: &str) -> (chars: Vec<char>)
    ensures
        chars@ == text@,
{
    let length = text.unicode_len();
    let mut chars: Vec<char> = Vec::new();
    let mut index: usize = 0;
    while index < length
        invariant
            length == text@.len(),
            index <= length,
            chars@ == text@.take(index as int),
        decreases length - index,
    {
        chars.push(text.get_char(index));
        index = index + 1;
        assert(chars@ =~= text@.take(index as int));
    }
    assert(text@.take(length as int) =~= text@);
    chars
}

/// Whether `c` is an ASCII decimal digit.
pub open spec fn is_digit(c: char) -> bool {
    '0' <= c && c <= '9'
}

/// The value of the decimal digits `digits`, most significant first.
pub open spec fn digits_value(digits: Seq<char>) -> nat
    decreases digits.len(),
{
    if digits.len() == 0 {
        0
    } else {
        digits_value(digits.drop_last()) * 10 + ((digits.last() as u32 - '0' as u32) as nat)
    }
}

/// The digits of an unsigned number: `text` without one leading `+`.
pub open spec fn unsigned_digits(text: Seq<char>) -> Seq<char> {
    if text.len() > 0 && text[0] == '+' {
        text.drop_first()
    } else {
        text
    }
}

/// What `str::parse` gives for an unsigned integer, before the bound of its
/// type: an optional `+` and then one or more decimal digits.
pub open spec fn unsigned_value(text: Seq<char>) -> Option<nat> {
    let digits = unsigned_digits(text);
    if digits.len() > 0 && forall|i: int| 0 <= i < digits.len() ==> is_digit(#[trigger] digits[i]) {
        Some(digits_value(digits))
    } else {
        None
    }
}

/// What `str::parse` gives for an unsigned integer type whose largest value
/// is `max`.
pub open spec fn parsed_unsigned(text: Seq<char>, max: nat) -> Option<nat> {
    match unsigned_value(text) {
        Some(value) => if value <= max {
            Some(value)
        } else {
            None
        },
        None => None,
    }
}

proof fn digits_value_grows(digits: Seq<char>, count: int)
    requires
        0 <= count <= digits.len(),
        forall|i: int| 0 <= i < digits.len() ==> is_digit(#[trigger] digits[i]),
    ensures
        digits_value(digits.take(count)) <= digits_value(digits),
    decreases digits.len() - count,
{
    if count < digits.len() {
        digits_value_grows(digits, count + 1);
        let longer = digits.take(count + 1);
        assert(longer.drop_last() =~= digits.take(count));
    } else {
        assert(digits.take(count) =~= digits);
    }
}

/// Parses `chars[start..end]` as `str::parse` parses an unsigned integer
/// type whose largest value is `max`.
pub fn parse_unsigned(chars: &Vec<char>, start: usize, end: usize, max: u64) -> (value: Option<u64>)
    requires
        start <= end <= chars@.len(),
    ensures
        value == match parsed_unsigned(chars@.subrange(start as int, end as int), max as nat) {
            Some(v) => Some(v as u64),
            None => None,
        },
{
    let ghost text = chars@.subrange(start as int, end as int);
    let mut first = start;
    if start < end && chars[start] == '+' {
        first = start + 1;
    }
    let ghost digits = chars@.subrange(first as int, end as int);
    assert(digits =~= unsigned_digits(text));
    if first == end {
        return None;
    }
    let mut value: u64 = 0;
    let mut index = first;
    while index < end
        invariant
            start <= first < end <= chars@.len(),
            first <= index <= end,
            digits == chars@.subrange(first as int, end as int),
            text == chars@.subrange(start as int, end as int),
            digits == unsigned_digits(text),
            forall|i: int| 0 <= i < index - first ==> is_digit(#[trigger] digits[i]),
            value == digits_value(digits.take(index - first)),
            value <= max,
        decreases end - index,
    {
        let c = chars[index];
        if c < '0' || c > '9' {
            assert(digits.len() == end - first);
            assert(digits[index - first] == c);
            assert(!is_digit(digits[index - first]));
            return None;
        }
        let digit = (c as u32 - '0' as u32) as u64;
        assert(digits.take(index - first + 1).drop_last() =~= digits.take(index - first));
        assert(digits.len() == end - first);
        assert(digits[index - first] == c);
        assert(digits.take(index - first + 1).last() == c);
        assert(digits_value(digits.take(index - first + 1)) == value * 10 + digit);
        if digit > max || value > (max - digit) / 10 {
            proof {
                assert(value * 10 + digit > max) by (nonlinear_arith)
                    requires
                        digit > max || value > (max - digit) / 10,
                        value >= 0,
                ;
                if forall|i: int| 0 <= i < digits.len() ==> is_digit(#[trigger] digits[i]) {
                    digits_value_grows(digits, index - first + 1);
                }
            }
            return None;
        }
        value = value * 10 + digit;
        index = index + 1;
    }
    assert(digits.take(end - first) =~= digits);
    Some(value)
}

} // verus!
