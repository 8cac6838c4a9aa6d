//! Reading one string out of a JSON document, and a number out of the string.

use vstd::prelude::*;
use vstd::string::StrSliceExecFns;

verus! {

/// Makes `serde_json::Value` known as a type: a JSON document.
#[verifier::external_type_specification]
#[verifier::external_body]
pub struct ExJsonValue(serde_json::Value);

/// Makes `serde_json::Error` known as a type; nothing is said of its values.
#[verifier::external_type_specification]
#[verifier::external_body]
pub struct ExJsonError(serde_json::Error);

/// The strings that a JSON document holds, each under the JSON pointer
/// that leads to it.
pub uninterp spec fn json_strings(document: serde_json::Value) -> Map<Seq<char>, Seq<char>>;

/// The strings of the JSON document that `text` writes, or `None` where
/// `text` writes none.
pub uninterp spec fn json_strings_of(text: Seq<char>) -> Option<Map<Seq<char>, Seq<char>>>;

/// Calls `serde_json::from_str` for a `serde_json::Value`.
///
/// Trusted: whether `text` is read as a document, and which strings the
/// document then holds, is a function of `text` alone, named
/// `json_strings_of`.
#[verifier::external_body]
pub(crate) fn json_from_str(text: &str) -> (document: Result<serde_json::Value, serde_json::Error>)
    ensures
        json_strings_of(text@) == match document {
            Ok(value) => Some(json_strings(value)),
            Err(_) => None,
        },
{
    serde_json::from_str(text)
}

/// Calls `serde_json::Value::pointer` and hands out the string that the
/// value found is, if it is one (`serde_json::Value::as_str`).
///
/// Trusted: this is what `json_strings` means.  A string is handed out
/// where the pointer leads to a string, and nothing where it leads to
/// nothing or to a value of another kind.
#[verifier::external_body]
pub(crate) fn json_string_at(document: &serde_json::Value, pointer: &str) -> (found: Option<String>)
    ensures
        match found {
            Some(string) => json_strings(*document).contains_key(pointer@) && json_strings(
                *document,
            )[pointer@] == string@,
            None => !json_strings(*document).contains_key(pointer@),
        },
{
    document.pointer(pointer).and_then(|value| value.as_str()).map(|string| string.to_owned())
}

/// Whether `c` is one of the ten decimal digits.
pub open spec fn is_digit(c: char) -> bool {
    '0' <= c <= '9'
}

/// The number that a string of decimal digits writes.
pub open spec fn decimal_value(digits: Seq<char>) -> nat
    decreases digits.len(),
{
    if digits.len() == 0 {
        0
    } else {
        decimal_value(digits.drop_last()) * 10 + (digits.last() as nat - '0' as nat) as nat
    }
}

/// The digits of a number that may be written with a plus sign in front.
pub open spec fn without_sign(text: Seq<char>) -> Seq<char> {
    if text.len() > 0 && text[0] == '+' {
        text.skip(1)
    } else {
        text
    }
}

/// Whether `text` writes a number as `u64` reads one from a string: one or
/// more decimal digits, with or without a plus sign in front.
pub open spec fn is_decimal(text: Seq<char>) -> bool {
    &&& without_sign(text).len() > 0
    &&& forall|i: int| 0 <= i < without_sign(text).len() ==> is_digit(#[trigger] without_sign(text)[i])
}

/// The `u64` that `text` writes, where it writes one.
pub open spec fn parse_u64_spec(text: Seq<char>) -> Option<u64> {
    if is_decimal(text) && decimal_value(without_sign(text)) <= u64::MAX {
        Some(decimal_value(without_sign(text)) as u64)
    } else {
        None
    }
}

/// A prefix of a string of digits writes no larger a number than the string.
pub proof fn lemma_decimal_value_grows(digits: Seq<char>, n: int)
    requires
        0 <= n <= digits.len(),
        forall|i: int| 0 <= i < digits.len() ==> is_digit(#[trigger] digits[i]),
    ensures
        decimal_value(digits.take(n)) <= decimal_value(digits),
    decreases digits.len() - n,
{
    if n == digits.len() {
        assert(digits.take(n) =~= digits);
    } else {
        lemma_decimal_value_grows(digits, n + 1);
        assert(digits.take(n + 1).drop_last() =~= digits.take(n));
        assert(is_digit(digits[n]));
    }
}

/// Reads a `u64` from its decimal form, as `str::parse::<u64>` does.
pub fn parse_u64(text: &str) -> (number: Option<u64>)
    ensures
        number == parse_u64_spec(text@),
{
    let len: usize = text.unicode_len();
    if len == 0 {
        return None;
    }
    let start: usize = if text.get_char(0) == '+' {
        1
    } else {
        0
    };
    if start == len {
        return None;
    }
    let ghost digits = without_sign(text@);
    assert(digits.len() == len - start);
    assert(forall|k: int| 0 <= k < digits.len() ==> digits[k] == text@[k + start]);
    let mut value: u64 = 0;
    let mut i: usize = start;
    while i < len
        invariant
            start <= i <= len,
            len == text@.len(),
            digits == without_sign(text@),
            digits.len() == len - start,
            forall|k: int| 0 <= k < digits.len() ==> digits[k] == text@[k + start],
            forall|k: int| 0 <= k < i - start ==> is_digit(#[trigger] digits[k]),
            value == decimal_value(digits.take(i - start)),
        decreases len - i,
    {
        let c: char = text.get_char(i);
        if !('0' <= c && c <= '9') {
            assert(!is_digit(digits[i - start]));
            return None;
        }
        let digit: u64 = (c as u32 - '0' as u32) as u64;
        proof {
            assert(digits.take(i - start + 1).drop_last() =~= digits.take(i - start));
            assert(digits.take(i - start + 1).last() == c);
        }
        if value > (u64::MAX - digit) / 10 {
            proof {
                if is_decimal(text@) {
                    lemma_decimal_value_grows(digits, i - start + 1);
                }
            }
            return None;
        }
        value = value * 10 + digit;
        i = i + 1;
    }
    assert(digits.take(i - start) =~= digits);
    Some(value)
}

} // verus!
