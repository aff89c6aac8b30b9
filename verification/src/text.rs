//! Plain text: comparing it, and reading the numbers written in it.

use vstd::prelude::*;

verus! {

/// The views of a sequence of strings, in the same order.
pub open spec fn string_views(strings: Seq<String>) -> Seq<Seq<char>> {
    strings.map_values(|text: String| text@)
}

/// Whether two pieces of text hold the same characters.
pub fn same_text(left: &str, right: &str) -> (same: bool)
    ensures
        same == (left@ == right@),
{
    let left_owned = left.to_owned();
    let right_owned = right.to_owned();
    left_owned == right_owned
}

/// Whether two lists of strings hold the same texts in the same order.
pub fn same_strings(left: &Vec<String>, right: &Vec<String>) -> (same: bool)
    ensures
        same == (string_views(left@) == string_views(right@)),
{
    if left.len() != right.len() {
        return false;
    }
    let mut index: usize = 0;
    while index < left.len()
        invariant
            index <= left.len(),
            left.len() == right.len(),
            forall|k: int| 0 <= k < index ==> left@[k]@ == right@[k]@,
        decreases left.len() - index,
    {
        if left[index] != right[index] {
            assert(string_views(left@)[index as int] != string_views(right@)[index as int]);
            return false;
        }
        index += 1;
    }
    assert(string_views(left@) =~= string_views(right@));
    true
}

/// Whether a character is one of the ten decimal digits.
pub open spec fn is_digit(c: char) -> bool {
    '0' <= c <= '9'
}

/// The number that a decimal digit stands for.
pub open spec fn digit_value(c: char) -> nat {
    (c as int - '0' as int) as nat
}

/// The number that a run of decimal digits writes.
pub open spec fn decimal_value(digits: Seq<char>) -> nat
    decreases digits.len(),
{
    if digits.len() == 0 {
        0
    } else {
        decimal_value(digits.drop_last()) * 10 + digit_value(digits.last())
    }
}

/// Whether every character is a decimal digit.
pub open spec fn all_digits(digits: Seq<char>) -> bool {
    forall|k: int| 0 <= k < digits.len() ==> is_digit(#[trigger] digits[k])
}

/// The digits of a written number: the text without the plus sign that may
/// stand in front.
pub open spec fn unsigned_digits(text: Seq<char>) -> Seq<char> {
    if text.len() > 0 && text[0] == '+' {
        text.skip(1)
    } else {
        text
    }
}

/// The size that a text writes: one or more decimal digits, with or without a
/// plus sign in front, that write a number the machine can hold. Nothing
/// else is a size: no blank, no minus sign, no empty text.
pub open spec fn written_size(text: Seq<char>) -> Option<usize> {
    let digits = unsigned_digits(text);
    if digits.len() > 0 && all_digits(digits) && decimal_value(digits) <= usize::MAX {
        Some(decimal_value(digits) as usize)
    } else {
        None
    }
}

/// A run of digits writes at least what any of its beginnings writes.
pub proof fn lemma_decimal_value_grows(digits: Seq<char>, shorter: int)
    requires
        0 <= shorter <= digits.len(),
    ensures
        decimal_value(digits.take(shorter)) <= decimal_value(digits),
    decreases digits.len() - shorter,
{
    if shorter == digits.len() {
        assert(digits.take(shorter) =~= digits);
    } else {
        lemma_decimal_value_grows(digits, shorter + 1);
        assert(digits.take(shorter + 1).drop_last() =~= digits.take(shorter));
    }
}

/// Reads the size that a text writes, if it writes one.
pub fn parse_decimal(text: &str) -> (size: Option<usize>)
    ensures
        size == written_size(text@),
{
    let length: usize = text.unicode_len();
    if length == 0 {
        return None;
    }
    let first: usize = if text.get_char(0) == '+' {
        1
    } else {
        0
    };
    if first == length {
        return None;
    }
    let ghost digits = unsigned_digits(text@);
    let mut size: usize = 0;
    let mut at: usize = first;
    while at < length
        invariant
            length == text@.len(),
            first <= at <= length,
            first < length,
            digits == unsigned_digits(text@),
            digits.len() == length - first,
            all_digits(digits.take(at - first)),
            size == decimal_value(digits.take(at - first)),
        decreases length - at,
    {
        let c = text.get_char(at);
        let code: u32 = c as u32;
        if code < 48 || code > 57 {
            assert(!is_digit(digits[at - first]));
            return None;
        }
        let digit: usize = (code - 48) as usize;
        proof {
            assert(digits.take(at - first + 1).drop_last() =~= digits.take(at - first));
        }
        if size > (usize::MAX - digit) / 10 {
            proof {
                lemma_decimal_value_grows(digits, at - first + 1);
            }
            return None;
        }
        size = size * 10 + digit;
        at += 1;
    }
    assert(digits.take(length - first) =~= digits);
    Some(size)
}

} // verus!
