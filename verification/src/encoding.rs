//! Hexadecimal text for byte strings, with the `0x` prefix that on-chain
//! tooling expects, and the way back from such text to bytes.

use vstd::prelude::*;
use vstd::string::*;
use vstd::utf8::is_ascii_chars;

verus! {

/// The sixteen lower-case hexadecimal digits, in order.
pub open spec fn hex_digits() -> Seq<char> {
    seq!['0', '1', '2', '3', '4', '5', '6', '7', '8', '9', 'a', 'b', 'c', 'd', 'e', 'f']
}

/// The lower-case hexadecimal text of `bytes`: two digits for each byte,
/// the high half first.
pub open spec fn hex_lower(bytes: Seq<u8>) -> Seq<char> {
    Seq::new(
        2 * bytes.len(),
        |i: int|
            if i % 2 == 0 {
                hex_digits()[bytes[i / 2] as int / 16]
            } else {
                hex_digits()[bytes[i / 2] as int % 16]
            },
    )
}

/// The two characters that open every hexadecimal field.
pub open spec fn hex_prefix() -> Seq<char> {
    seq!['0', 'x']
}

/// `bytes` as hexadecimal text behind the prefix `0x`.
pub open spec fn prefixed_hex_spec(bytes: Seq<u8>) -> Seq<char> {
    hex_prefix() + hex_lower(bytes)
}

/// The value of a hexadecimal digit of either case, if `c` is one.
pub open spec fn hex_value(c: char) -> Option<int> {
    if '0' <= c <= '9' {
        Some(c as int - '0' as int)
    } else if 'a' <= c <= 'f' {
        Some(c as int - 'a' as int + 10)
    } else if 'A' <= c <= 'F' {
        Some(c as int - 'A' as int + 10)
    } else {
        None
    }
}

/// Whether `text` is an even number of hexadecimal digits.
pub open spec fn is_hex(text: Seq<char>) -> bool {
    &&& text.len() % 2 == 0
    &&& forall|i: int| 0 <= i < text.len() ==> (#[trigger] hex_value(text[i])) is Some
}

/// The bytes that hexadecimal `text` stands for, if it is hexadecimal.
pub open spec fn hex_decode_spec(text: Seq<char>) -> Option<Seq<u8>> {
    if is_hex(text) {
        Some(
            Seq::new(
                text.len() / 2,
                |k: int|
                    (16 * hex_value(text[2 * k]).unwrap() + hex_value(text[2 * k + 1]).unwrap()) as u8,
            ),
        )
    } else {
        None
    }
}

/// The bytes that `text` stands for, if it is `0x` followed by hexadecimal
/// digits.
pub open spec fn prefixed_hex_decode_spec(text: Seq<char>) -> Option<Seq<u8>> {
    if text.len() >= 2 && text[0] == '0' && text[1] == 'x' {
        hex_decode_spec(text.skip(2))
    } else {
        None
    }
}

/// Calls `hex::encode`. Trusted: the result is the lower-case hexadecimal
/// text of `data`, two digits per byte with the high half first, as the
/// crate computes it from its table `0123456789abcdef`.
#[verifier::external_body]
fn hex_encode(data: &[u8]) -> (text: String)
    ensures
        text@ == hex_lower(data@),
{
    hex::encode(data)
}

/// `data` as hexadecimal text behind the prefix `0x`.
pub fn prefixed_hex(data: &[u8]) -> (text: String)
    ensures
        text@ == prefixed_hex_spec(data@),
{
    let digits = hex_encode(data);
    let mut text = String::from_str("0x");
    proof {
        reveal_strlit("0x");
        assert("0x"@ =~= hex_prefix());
    }
    text.append(digits.as_str());
    text
}

/// The value of the hexadecimal digit whose ASCII code is `code`, if it is
/// one.
fn digit_value(code: u8) -> (value: Option<u8>)
    ensures
        match hex_value(code as char) {
            Some(v) => value == Some(v as u8) && v < 16,
            None => value is None,
        },
{
    if 48 <= code && code <= 57 {
        Some(code - 48)
    } else if 97 <= code && code <= 102 {
        Some(code - 87)
    } else if 65 <= code && code <= 70 {
        Some(code - 55)
    } else {
        None
    }
}

/// Reads `text` back into the bytes it stands for: `Some` exactly when
/// `text` is `0x` followed by an even number of hexadecimal digits.
pub fn decode_prefixed_hex(text: &str) -> (bytes: Option<Vec<u8>>)
    ensures
        match prefixed_hex_decode_spec(text@) {
            Some(b) => bytes matches Some(v) && v@ == b,
            None => bytes is None,
        },
{
    if !text.is_ascii() {
        proof {
            lemma_hex_is_ascii(text@);
        }
        return None;
    }
    let raw = text.as_bytes();
    proof {
        is_ascii_spec_bytes(text);
    }
    assert(raw@.len() == text@.len());
    assert(forall|i: int| 0 <= i < raw@.len() ==> raw@[i] == text@[i] as u8);
    let n = raw.len();
    if n < 2 || raw[0] != 48 || raw[1] != 120 {
        return None;
    }
    if (n - 2) % 2 != 0 {
        return None;
    }
    let ghost digits = text@.skip(2);
    let mut out: Vec<u8> = Vec::new();
    let mut i: usize = 2;
    while i < n
        invariant
            2 <= i <= n,
            n == raw@.len(),
            raw@.len() == text@.len(),
            (n - i) % 2 == 0,
            digits == text@.skip(2),
            is_ascii_chars(text@),
            forall|j: int| 0 <= j < raw@.len() ==> raw@[j] == text@[j] as u8,
            forall|j: int| 0 <= j < i - 2 ==> (#[trigger] hex_value(digits[j])) is Some,
            2 * out@.len() == i - 2,
            forall|k: int|
                0 <= k < out@.len() ==> #[trigger] out@[k] == (16 * hex_value(digits[2 * k]).unwrap()
                    + hex_value(digits[2 * k + 1]).unwrap()) as u8,
        decreases n - i,
    {
        assert(digits[i - 2] == text@[i as int]);
        assert(digits[i - 1] == text@[i + 1]);
        assert(raw@[i as int] as char == text@[i as int]);
        assert(raw@[i + 1] as char == text@[i + 1]);
        let high = digit_value(raw[i]);
        let low = digit_value(raw[i + 1]);
        match (high, low) {
            (Some(h), Some(l)) => {
                let ghost before = out@;
                out.push(h * 16 + l);
                assert(forall|k: int| 0 <= k < before.len() ==> out@[k] == before[k]);
            },
            _ => {
                assert(!is_hex(digits)) by {
                    if high is None {
                        assert(hex_value(digits[i - 2]) is None);
                    } else {
                        assert(hex_value(digits[i - 1]) is None);
                    }
                }
                return None;
            },
        }
        i = i + 2;
    }
    assert(is_hex(digits));
    assert(out@ =~= hex_decode_spec(digits).unwrap());
    Some(out)
}

/// Hexadecimal text holds ASCII characters only.
proof fn lemma_hex_is_ascii(text: Seq<char>)
    requires
        !is_ascii_chars(text),
    ensures
        prefixed_hex_decode_spec(text) is None,
{
    let i = choose|i: int| 0 <= i < text.len() && !('\0' <= #[trigger] text[i] <= '\u{7f}');
    if text.len() >= 2 && text[0] == '0' && text[1] == 'x' {
        assert(i >= 2);
        assert(text.skip(2)[i - 2] == text[i]);
        assert(hex_value(text.skip(2)[i - 2]) is None);
    }
}

/// Decoding undoes encoding: the hexadecimal text of `bytes`, read back,
/// gives `bytes`.
pub proof fn lemma_hex_round_trip(bytes: Seq<u8>)
    ensures
        is_hex(hex_lower(bytes)),
        hex_decode_spec(hex_lower(bytes)) == Some(bytes),
{
    let text = hex_lower(bytes);
    assert forall|i: int| 0 <= i < text.len() implies (#[trigger] hex_value(text[i])) is Some by {
        lemma_digit_value(bytes[i / 2] as int / 16);
        lemma_digit_value(bytes[i / 2] as int % 16);
    }
    assert(is_hex(text));
    let back = hex_decode_spec(text).unwrap();
    assert forall|k: int| 0 <= k < bytes.len() implies back[k] == bytes[k] by {
        lemma_digit_value(bytes[k] as int / 16);
        lemma_digit_value(bytes[k] as int % 16);
        assert((2 * k) / 2 == k && (2 * k) % 2 == 0);
        assert((2 * k + 1) / 2 == k && (2 * k + 1) % 2 == 1);
    }
    assert(back =~= bytes);
}

/// The same behind the prefix: a hexadecimal field, read back, gives the
/// bytes it was made from.
pub proof fn lemma_prefixed_hex_round_trip(bytes: Seq<u8>)
    ensures
        prefixed_hex_decode_spec(prefixed_hex_spec(bytes)) == Some(bytes),
{
    lemma_hex_round_trip(bytes);
    assert(prefixed_hex_spec(bytes).skip(2) =~= hex_lower(bytes));
}

/// Each of the sixteen digits has its own position as its value.
proof fn lemma_digit_value(value: int)
    requires
        0 <= value < 16,
    ensures
        hex_value(hex_digits()[value]) == Some(value),
{
}

} // verus!
