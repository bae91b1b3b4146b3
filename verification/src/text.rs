//! Text as sequences of characters.

use vstd::prelude::*;
use vstd::string::*;

verus! {

/// `String::push` appends one character to the end of the string.
pub assume_specification[ String::push ](text: &mut String, c: char)
    ensures
        final(text)@ == old(text)@.push(c),
;

/// The characters of an optional text.
pub open spec fn opt_text(text: Option<String>) -> Option<Seq<char>> {
    match text {
        Some(text) => Some(text@),
        None => None,
    }
}

/// Returns a copy of an optional text.
pub fn copy_opt(text: &Option<String>) -> (copy: Option<String>)
    ensures
        copy == *text,
{
    match text {
        Some(text) => Some(text.clone()),
        None => None,
    }
}

/// Returns whether two texts hold the same characters.
pub fn same_text(a: &String, b: &String) -> (same: bool)
    ensures
        same == (a@ == b@),
{
    *a == *b
}

/// Returns whether two optional texts are both absent or hold the same
/// characters.
pub fn same_opt_text(a: &Option<String>, b: &Option<String>) -> (same: bool)
    ensures
        same == (opt_text(*a) == opt_text(*b)),
{
    match a {
        Some(x) => match b {
            Some(y) => same_text(x, y),
            None => false,
        },
        None => b.is_none(),
    }
}

/// Returns whether a text holds no character.
pub fn is_blank(text: &String) -> (blank: bool)
    ensures
        blank == (text@.len() == 0),
{
    text.as_str().unicode_len() == 0
}

/// Returns the concatenation of two texts.
pub fn joined(a: &str, b: &str) -> (text: String)
    ensures
        text@ == a@ + b@,
{
    let mut text: String = a.to_string();
    text.append(b);
    text
}

/// Whether `c` has the Unicode `White_Space` property.
pub open spec fn is_white(c: char) -> bool {
    let code = c as int;
    ||| 0x09 <= code <= 0x0d
    ||| code == 0x20
    ||| code == 0x85
    ||| code == 0xa0
    ||| code == 0x1680
    ||| 0x2000 <= code <= 0x200a
    ||| code == 0x2028
    ||| code == 0x2029
    ||| code == 0x202f
    ||| code == 0x205f
    ||| code == 0x3000
}

/// Returns whether `c` is white space.
pub fn white(c: char) -> (result: bool)
    ensures
        result == is_white(c),
{
    let code: u32 = c as u32;
    (0x09 <= code && code <= 0x0d) || code == 0x20 || code == 0x85 || code == 0xa0 || code == 0x1680
        || (0x2000 <= code && code <= 0x200a) || code == 0x2028 || code == 0x2029 || code == 0x202f
        || code == 0x205f || code == 0x3000
}

/// Whether `c` is a control character, a member of the Unicode category `Cc`.
pub open spec fn is_control(c: char) -> bool {
    let code = c as int;
    code < 0x20 || 0x7f <= code <= 0x9f
}

/// Returns whether `c` is a control character.
pub fn control(c: char) -> (result: bool)
    ensures
        result == is_control(c),
{
    let code: u32 = c as u32;
    code < 0x20 || (0x7f <= code && code <= 0x9f)
}

/// `text` without the white space it starts with.
pub open spec fn trimmed_start(text: Seq<char>) -> Seq<char>
    decreases text.len(),
{
    if text.len() > 0 && is_white(text[0]) {
        trimmed_start(text.drop_first())
    } else {
        text
    }
}

/// `text` without the white space it ends with.
pub open spec fn trimmed_end(text: Seq<char>) -> Seq<char>
    decreases text.len(),
{
    if text.len() > 0 && is_white(text.last()) {
        trimmed_end(text.drop_last())
    } else {
        text
    }
}

/// `text` without the white space at either end.
pub open spec fn trimmed(text: Seq<char>) -> Seq<char> {
    trimmed_end(trimmed_start(text))
}

/// Returns `text` without the white space at either end.
pub fn trim(text: &String) -> (out: String)
    ensures
        out@ == trimmed(text@),
{
    let whole: &str = text.as_str();
    let len: usize = whole.unicode_len();
    let mut start: usize = 0;
    assert(text@.skip(0) =~= text@);
    while start < len && white(whole.get_char(start))
        invariant
            whole@ == text@,
            start <= len == text@.len(),
            trimmed_start(text@) == trimmed_start(text@.skip(start as int)),
        decreases len - start,
    {
        assert(text@.skip(start as int).drop_first() =~= text@.skip(start + 1));
        start = start + 1;
    }
    assert(text@.skip(start as int) == trimmed_start(text@)) by {
        let rest = text@.skip(start as int);
        if start < len {
            assert(rest[0] == text@[start as int]);
        }
    }
    let mut end: usize = len;
    let ghost rest = text@.skip(start as int);
    assert(rest.take(end - start) =~= rest);
    while end > start && white(whole.get_char(end - 1))
        invariant
            whole@ == text@,
            start <= end <= len == text@.len(),
            rest == text@.skip(start as int),
            trimmed_end(rest) == trimmed_end(rest.take(end - start)),
        decreases end,
    {
        assert(rest.take(end - start).drop_last() =~= rest.take(end - start - 1));
        assert(rest.take(end - start).last() == text@[end - 1]);
        end = end - 1;
    }
    assert(rest.take(end - start) == trimmed_end(rest)) by {
        if end > start {
            assert(rest.take(end - start).last() == text@[end - 1]);
        }
    }
    assert(rest.take(end - start) =~= text@.subrange(start as int, end as int));
    whole.substring_char(start, end).to_string()
}

/// The character of a decimal digit.
pub open spec fn digit_char(digit: nat) -> char {
    (0x30 + digit) as char
}

/// The decimal digits of `number`, most significant first, as characters.
pub open spec fn decimal_text(number: nat) -> Seq<char>
    decreases number,
{
    if number < 10 {
        seq![digit_char(number)]
    } else {
        decimal_text(number / 10).push(digit_char(number % 10))
    }
}

/// The decimal digits of `number`, most significant first, as ASCII bytes.
pub open spec fn decimal_bytes(number: nat) -> Seq<u8>
    decreases number,
{
    if number < 10 {
        seq![(0x30 + number) as u8]
    } else {
        decimal_bytes(number / 10).push((0x30 + number % 10) as u8)
    }
}

/// Appends the decimal digits of `number` to `text`.
pub fn push_decimal_text(text: &mut String, number: u64)
    ensures
        final(text)@ == old(text)@ + decimal_text(number as nat),
    decreases number,
{
    if number >= 10 {
        push_decimal_text(text, number / 10);
    }
    let digit: u8 = (number % 10) as u8;
    text.push((0x30 + digit) as char);
    assert(text@ =~= old(text)@ + decimal_text(number as nat));
}

/// Appends the decimal digits of `number` to `bytes`.
pub fn push_decimal_bytes(bytes: &mut Vec<u8>, number: u64)
    ensures
        final(bytes)@ == old(bytes)@ + decimal_bytes(number as nat),
    decreases number,
{
    if number >= 10 {
        push_decimal_bytes(bytes, number / 10);
    }
    let digit: u8 = (number % 10) as u8;
    bytes.push(0x30 + digit);
    assert(bytes@ =~= old(bytes)@ + decimal_bytes(number as nat));
}

/// Different numbers have different decimal digits.
pub proof fn decimal_text_is_injective(a: nat, b: nat)
    ensures
        decimal_text(a) == decimal_text(b) ==> a == b,
    decreases a,
{
    if decimal_text(a) == decimal_text(b) {
        decimal_text_shape(a);
        decimal_text_shape(b);
        assert(decimal_text(a).last() == decimal_text(b).last());
        assert(a % 10 == b % 10);
        if a >= 10 && b >= 10 {
            assert(decimal_text(a).drop_last() =~= decimal_text(a / 10));
            assert(decimal_text(b).drop_last() =~= decimal_text(b / 10));
            decimal_text_is_injective(a / 10, b / 10);
        }
    }
}

/// Decimal digits are never empty, take one character exactly below ten, and
/// end in the digit of the remainder.
proof fn decimal_text_shape(number: nat)
    ensures
        decimal_text(number).len() >= 1,
        number >= 10 ==> decimal_text(number).len() >= 2,
        number < 10 ==> decimal_text(number).len() == 1,
        decimal_text(number).last() == digit_char(number % 10),
        digit_char(number % 10) as int == 0x30 + number % 10,
    decreases number,
{
    if number >= 10 {
        decimal_text_shape(number / 10);
    }
}

/// The number that a run of decimal digits reads as.
pub open spec fn number_read(bytes: Seq<u8>) -> nat
    decreases bytes.len(),
{
    if bytes.len() == 0 {
        0
    } else {
        number_read(bytes.drop_last()) * 10 + (bytes.last() - 0x30) as nat
    }
}

/// A number is written in the digits `0` to `9`, reads back as itself, and has no
/// leading zero. As text it is written in the same digits.
pub proof fn numbers_read_back(number: nat)
    ensures
        number_read(decimal_bytes(number)) == number,
        decimal_bytes(number).len() > 0,
        number > 0 ==> decimal_bytes(number)[0] != 0x30,
        forall|i: int|
            0 <= i < decimal_bytes(number).len() ==> 0x30 <= #[trigger] decimal_bytes(number)[i]
                <= 0x39,
        decimal_text(number).len() == decimal_bytes(number).len(),
        forall|i: int|
            0 <= i < decimal_bytes(number).len() ==> (#[trigger] decimal_text(number)[i]) as int
                == decimal_bytes(number)[i],
    decreases number,
{
    reveal_with_fuel(number_read, 2);
    if number < 10 {
        assert(decimal_bytes(number).drop_last() =~= Seq::<u8>::empty());
    } else {
        numbers_read_back(number / 10);
        assert(decimal_bytes(number).drop_last() =~= decimal_bytes(number / 10));
        assert(decimal_text(number).drop_last() =~= decimal_text(number / 10));
        let head = decimal_bytes(number / 10);
        assert forall|i: int| 0 <= i < decimal_bytes(number).len() implies 0x30
            <= #[trigger] decimal_bytes(number)[i] <= 0x39 by {
            if i < head.len() {
                assert(decimal_bytes(number)[i] == head[i]);
            }
        }
        assert forall|i: int| 0 <= i < decimal_bytes(number).len() implies (
        #[trigger] decimal_text(number)[i]) as int == decimal_bytes(number)[i] by {
            if i < head.len() {
                assert(decimal_bytes(number)[i] == head[i]);
                assert(decimal_text(number)[i] == decimal_text(number / 10)[i]);
            }
        }
    }
}

/// Trimming takes whitespace off both ends and nothing else: what is left stands
/// in the text between two runs of whitespace, and neither starts nor ends with
/// any.
pub proof fn trimming_takes_the_blank_ends(text: Seq<char>)
    ensures
        trimmed(text).len() > 0 ==> !is_white(trimmed(text)[0]) && !is_white(trimmed(text).last()),
        exists|from: int, to: int|
            {
                &&& 0 <= from <= to <= text.len()
                &&& trimmed(text) == #[trigger] text.subrange(from, to)
                &&& forall|i: int| 0 <= i < from || to <= i < text.len() ==> is_white(#[trigger] text[i])
            },
{
    starts_are_trimmed(text);
    let rest = trimmed_start(text);
    ends_are_trimmed(rest);
    let from = text.len() - rest.len();
    let to = from + trimmed_end(rest).len();
    assert(trimmed(text) =~= text.subrange(from, to));
    assert forall|i: int| to <= i < text.len() implies is_white(#[trigger] text[i]) by {
        assert(text[i] == rest[i - from]);
    }
    if trimmed(text).len() > 0 {
        assert(trimmed(text)[0] == rest[0]);
    }
}

proof fn starts_are_trimmed(text: Seq<char>)
    ensures
        trimmed_start(text).len() <= text.len(),
        trimmed_start(text) == text.skip(text.len() - trimmed_start(text).len()),
        trimmed_start(text).len() > 0 ==> !is_white(trimmed_start(text)[0]),
        forall|i: int|
            0 <= i < text.len() - trimmed_start(text).len() ==> is_white(#[trigger] text[i]),
    decreases text.len(),
{
    if text.len() > 0 && is_white(text[0]) {
        let rest = text.drop_first();
        starts_are_trimmed(rest);
        assert forall|i: int| 0 <= i < text.len() - trimmed_start(text).len() implies is_white(
            #[trigger] text[i],
        ) by {
            if i > 0 {
                assert(text[i] == rest[i - 1]);
            }
        }
        assert(trimmed_start(text) =~= text.skip(text.len() - trimmed_start(text).len()));
    } else {
        assert(text.skip(0) =~= text);
    }
}

proof fn ends_are_trimmed(text: Seq<char>)
    ensures
        trimmed_end(text).len() <= text.len(),
        trimmed_end(text) == text.take(trimmed_end(text).len() as int),
        trimmed_end(text).len() > 0 ==> !is_white(trimmed_end(text).last()),
        forall|i: int| trimmed_end(text).len() <= i < text.len() ==> is_white(#[trigger] text[i]),
    decreases text.len(),
{
    if text.len() > 0 && is_white(text.last()) {
        let rest = text.drop_last();
        ends_are_trimmed(rest);
        assert forall|i: int| trimmed_end(text).len() <= i < text.len() implies is_white(
            #[trigger] text[i],
        ) by {
            if i < rest.len() {
                assert(text[i] == rest[i]);
            }
        }
        assert(trimmed_end(text) =~= text.take(trimmed_end(text).len() as int));
    } else {
        assert(text.take(text.len() as int) =~= text);
    }
}

} // verus!
