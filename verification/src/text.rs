//! Putting strings together: URLs, numbers and bytes in text form.

use vstd::prelude::*;
use vstd::string::StringExecFns;

verus! {

/// The decimal digit for a number below ten.
pub open spec fn digit_char(digit: nat) -> char {
    ('0' as nat + digit) as char
}

/// A number in decimal, without sign and without leading zeros.
pub open spec fn decimal_digits(number: nat) -> Seq<char>
    decreases number,
{
    if number < 10 {
        seq![digit_char(number)]
    } else {
        decimal_digits(number / 10).push(digit_char(number % 10))
    }
}

/// The lower-case hexadecimal digit for a number below sixteen.
pub open spec fn hex_char(nibble: nat) -> char {
    if nibble < 10 {
        ('0' as nat + nibble) as char
    } else {
        ('a' as nat + (nibble - 10)) as char
    }
}

/// Two hexadecimal digits for each byte, the high half first.
pub open spec fn hex_digits(bytes: Seq<u8>) -> Seq<char>
    decreases bytes.len(),
{
    if bytes.len() == 0 {
        Seq::empty()
    } else {
        hex_digits(bytes.drop_last()).push(hex_char(bytes.last() as nat / 16)).push(
            hex_char(bytes.last() as nat % 16),
        )
    }
}

/// Bytes in the text form that the beacon API and the relay use: `0x` and
/// the hexadecimal digits.
pub open spec fn prefixed_hex(bytes: Seq<u8>) -> Seq<char> {
    seq!['0', 'x'] + hex_digits(bytes)
}

/// Calls `u64::to_string`.
///
/// Trusted: the result is the number in decimal.
#[verifier::external_body]
pub(crate) fn u64_to_string(number: u64) -> (text: String)
    ensures
        text@ == decimal_digits(number as nat),
{
    number.to_string()
}

/// Calls `serde_utils::hex::encode` of the package `ethereum_serde_utils`.
///
/// Trusted: the result is `0x` followed by two lower-case hexadecimal digits
/// for each byte.
#[verifier::external_body]
pub(crate) fn hex_encode(bytes: &[u8]) -> (text: String)
    ensures
        text@ == prefixed_hex(bytes@),
{
    serde_utils::hex::encode(bytes)
}

/// `head` followed by `tail`.
pub fn concat(head: &str, tail: &str) -> (joined: String)
    ensures
        joined@ == head@ + tail@,
{
    let mut joined: String = head.to_owned();
    joined.append(tail);
    joined
}

/// The number that a hexadecimal digit of either case stands for.
pub open spec fn hex_value(c: char) -> Option<u8> {
    if '0' <= c <= '9' {
        Some((c as int - '0' as int) as u8)
    } else if 'a' <= c <= 'f' {
        Some((c as int - 'a' as int + 10) as u8)
    } else if 'A' <= c <= 'F' {
        Some((c as int - 'A' as int + 10) as u8)
    } else {
        None
    }
}

/// Whether `text` writes bytes: `0x` and then two hexadecimal digits for
/// each byte.
pub open spec fn is_prefixed_hex(text: Seq<char>) -> bool {
    &&& text.len() >= 2
    &&& text[0] == '0'
    &&& text[1] == 'x'
    &&& (text.len() - 2) % 2 == 0
    &&& forall|i: int| 2 <= i < text.len() ==> hex_value(#[trigger] text[i]) is Some
}

/// The bytes that `text` writes, where it writes bytes.
pub open spec fn hex_bytes(text: Seq<char>) -> Seq<u8>
    recommends
        is_prefixed_hex(text),
{
    Seq::new(
        ((text.len() - 2) / 2) as nat,
        |i: int| (hex_value(text[2 + 2 * i])->0 * 16 + hex_value(text[3 + 2 * i])->0) as u8,
    )
}

/// The bytes that `text` writes, or `None` where it writes none.
pub open spec fn decoded_hex(text: Seq<char>) -> Option<Seq<u8>> {
    if is_prefixed_hex(text) {
        Some(hex_bytes(text))
    } else {
        None
    }
}

/// The hexadecimal digits of bytes are two for each byte: the high half
/// and the low half.
pub proof fn lemma_hex_digits(bytes: Seq<u8>)
    ensures
        hex_digits(bytes).len() == 2 * bytes.len(),
        forall|i: int|
            0 <= i < bytes.len() ==> {
                &&& hex_digits(bytes)[2 * i] == hex_char(#[trigger] bytes[i] as nat / 16)
                &&& hex_digits(bytes)[2 * i + 1] == hex_char(bytes[i] as nat % 16)
            },
    decreases bytes.len(),
{
    if bytes.len() > 0 {
        lemma_hex_digits(bytes.drop_last());
        assert forall|i: int| 0 <= i < bytes.len() implies {
            &&& hex_digits(bytes)[2 * i] == hex_char(#[trigger] bytes[i] as nat / 16)
            &&& hex_digits(bytes)[2 * i + 1] == hex_char(bytes[i] as nat % 16)
        } by {
            if i < bytes.len() - 1 {
                assert(bytes.drop_last()[i] == bytes[i]);
            }
        }
    }
}

/// Bytes written in hexadecimal after `0x` are read back as they were.
pub proof fn lemma_hex_round_trip(bytes: Seq<u8>)
    ensures
        decoded_hex(prefixed_hex(bytes)) == Some(bytes),
{
    lemma_hex_digits(bytes);
    let text = prefixed_hex(bytes);
    assert(text.len() == 2 + 2 * bytes.len());
    assert forall|i: int| 2 <= i < text.len() implies hex_value(#[trigger] text[i]) is Some by {
        let k = (i - 2) / 2;
        assert(0 <= k < bytes.len());
        assert(text[i] == hex_digits(bytes)[i - 2]);
        if (i - 2) % 2 == 0 {
            assert(i - 2 == 2 * k);
            assert(text[i] == hex_char(bytes[k] as nat / 16));
        } else {
            assert(i - 2 == 2 * k + 1);
            assert(text[i] == hex_char(bytes[k] as nat % 16));
        }
    }
    assert(is_prefixed_hex(text));
    assert forall|k: int| 0 <= k < bytes.len() implies hex_bytes(text)[k] == bytes[k] by {
        assert(text[2 + 2 * k] == hex_digits(bytes)[2 * k]);
        assert(text[3 + 2 * k] == hex_digits(bytes)[2 * k + 1]);
        let high = bytes[k] as nat / 16;
        let low = bytes[k] as nat % 16;
        assert(hex_value(hex_char(high)) == Some(high as u8));
        assert(hex_value(hex_char(low)) == Some(low as u8));
    }
    assert(hex_bytes(text) =~= bytes);
}

/// The number that the byte of a hexadecimal digit stands for.
fn hex_digit_value(byte: u8) -> (value: Option<u8>)
    ensures
        value == hex_value(byte as char),
        value matches Some(v) ==> v < 16,
{
    if 48 <= byte && byte <= 57 {
        Some(byte - 48)
    } else if 97 <= byte && byte <= 102 {
        Some(byte - 97 + 10)
    } else if 65 <= byte && byte <= 70 {
        Some(byte - 65 + 10)
    } else {
        None
    }
}

/// Reads bytes that are written in hexadecimal after `0x`, two digits of
/// either case for each byte.
pub fn hex_decode(text: &str) -> (bytes: Option<Vec<u8>>)
    ensures
        match bytes {
            Some(found) => decoded_hex(text@) == Some(found@),
            None => decoded_hex(text@) is None,
        },
{
    broadcast use vstd::string::is_ascii_spec_bytes;

    if !text.is_ascii() {
        assert(!is_prefixed_hex(text@)) by {
            if is_prefixed_hex(text@) {
                assert forall|i: int| 0 <= i < text@.len() implies '\0' <= #[trigger] text@[i]
                    <= '\u{7f}' by {
                    if i >= 2 {
                        assert(hex_value(text@[i]) is Some);
                    }
                }
            }
        }
        return None;
    }
    let raw: &[u8] = text.as_bytes();
    assert(raw@.len() == text@.len());
    assert(forall|i: int| 0 <= i < raw@.len() ==> raw@[i] as char == #[trigger] text@[i]);
    let len: usize = raw.len();
    if len < 2 || raw[0] != 48 || raw[1] != 120 || (len - 2) % 2 != 0 {
        proof {
            if len >= 2 {
                assert(text@[0] == raw@[0] as char);
                assert(text@[1] == raw@[1] as char);
            }
        }
        return None;
    }
    let mut bytes: Vec<u8> = Vec::new();
    let mut i: usize = 2;
    while i < len
        invariant
            2 <= i <= len,
            (i - 2) % 2 == 0,
            (len - 2) % 2 == 0,
            len == raw@.len(),
            raw@.len() == text@.len(),
            text@[0] == '0',
            text@[1] == 'x',
            forall|k: int| 0 <= k < raw@.len() ==> raw@[k] as char == #[trigger] text@[k],
            forall|k: int| 2 <= k < i ==> hex_value(#[trigger] text@[k]) is Some,
            bytes@.len() == (i - 2) / 2,
            forall|k: int| 0 <= k < bytes@.len() ==> bytes@[k] == hex_bytes(text@)[k],
        decreases len - i,
    {
        let high: u8 = match hex_digit_value(raw[i]) {
            Some(value) => value,
            None => {
                assert(hex_value(text@[i as int]) is None);
                return None;
            },
        };
        let low: u8 = match hex_digit_value(raw[i + 1]) {
            Some(value) => value,
            None => {
                assert(hex_value(text@[i + 1]) is None);
                return None;
            },
        };
        proof {
            let k = (i - 2) / 2;
            assert(2 + 2 * k == i);
            assert(hex_bytes(text@)[k] == (high * 16 + low) as u8);
        }
        bytes.push(high * 16 + low);
        i = i + 2;
    }
    assert(is_prefixed_hex(text@));
    assert(bytes@ =~= hex_bytes(text@));
    Some(bytes)
}

} // verus!
