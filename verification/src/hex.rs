//! Hex text: the grammar, what a text decodes to, and a decoder that keeps
//! the decoded bytes in an erasable buffer from the first byte on.

use vstd::prelude::*;
use vstd::string::StringSliceAdditionalSpecFns;
use crate::erasable::ErasableBytes;

verus! {

/// The value of one hex digit, either case, or `None` for any other byte.
pub open spec fn hex_digit_value(c: u8) -> Option<u8> {
    if 0x30 <= c <= 0x39 {
        Some((c - 0x30) as u8)
    } else if 0x61 <= c <= 0x66 {
        Some((c - 0x61 + 10) as u8)
    } else if 0x41 <= c <= 0x46 {
        Some((c - 0x41 + 10) as u8)
    } else {
        None
    }
}

/// Whether `text` is hex: an even number of bytes, each a hex digit.
pub open spec fn is_hex_text(text: Seq<u8>) -> bool {
    &&& text.len() % 2 == 0
    &&& forall|i: int| 0 <= i < text.len() ==> (#[trigger] hex_digit_value(text[i])).is_some()
}

/// The byte that two hex digits encode, the high digit first.
pub open spec fn hex_pair_value(high: u8, low: u8) -> u8 {
    (hex_digit_value(high).unwrap() * 16 + hex_digit_value(low).unwrap()) as u8
}

/// The bytes that the first `2 * count` digits of `text` encode.
pub open spec fn decoded_prefix(text: Seq<u8>, count: int) -> Seq<u8> {
    Seq::new(count as nat, |k: int| hex_pair_value(text[2 * k], text[2 * k + 1]))
}

/// What `text` decodes to: its pairs of digits as bytes, or `None` where it
/// is not hex. The empty text decodes to no bytes.
pub open spec fn decode_hex(text: Seq<u8>) -> Option<Seq<u8>> {
    if is_hex_text(text) {
        Some(decoded_prefix(text, text.len() as int / 2))
    } else {
        None
    }
}

/// The digit that stands for `value`, in upper or lower case.
pub open spec fn hex_digit_of(value: u8, upper: bool) -> u8
    recommends
        value < 16,
{
    if value < 10 {
        (0x30 + value) as u8
    } else if upper {
        (0x41 + value - 10) as u8
    } else {
        (0x61 + value - 10) as u8
    }
}

/// The hex encoding of `bytes`: two digits for each byte, the high one
/// first, all letters in the case chosen.
pub open spec fn encode_hex(bytes: Seq<u8>, upper: bool) -> Seq<u8> {
    Seq::new(
        2 * bytes.len(),
        |i: int|
            if i % 2 == 0 {
                hex_digit_of(bytes[i / 2] / 16, upper)
            } else {
                hex_digit_of(bytes[i / 2] % 16, upper)
            },
    )
}

/// Decoding undoes encoding: the hex encoding of any bytes, in either case,
/// decodes to those bytes.
pub proof fn lemma_decode_of_encode(bytes: Seq<u8>, upper: bool)
    ensures
        decode_hex(encode_hex(bytes, upper)) == Some(bytes),
{
    let text = encode_hex(bytes, upper);
    assert forall|i: int| 0 <= i < text.len() implies (#[trigger] hex_digit_value(
        text[i],
    )).is_some() by {
        let b = bytes[i / 2];
        assert(b / 16 < 16 && b % 16 < 16);
    }
    assert(is_hex_text(text));
    let decoded = decoded_prefix(text, text.len() as int / 2);
    assert(decoded.len() == bytes.len());
    assert forall|k: int| 0 <= k < bytes.len() implies decoded[k] == bytes[k] by {
        let b = bytes[k];
        assert((2 * k) / 2 == k && (2 * k + 1) / 2 == k);
        assert(text[2 * k] == hex_digit_of(b / 16, upper));
        assert(text[2 * k + 1] == hex_digit_of(b % 16, upper));
        assert(hex_digit_value(hex_digit_of(b / 16, upper)) == Some((b / 16) as u8));
        assert(hex_digit_value(hex_digit_of(b % 16, upper)) == Some((b % 16) as u8));
        assert((b / 16) * 16 + b % 16 == b);
    }
    assert(decoded =~= bytes);
}

/// The lower-case form of an ASCII letter; any other byte stays.
pub open spec fn ascii_lower(c: u8) -> u8 {
    if 0x41 <= c <= 0x5a {
        (c + 0x20) as u8
    } else {
        c
    }
}

/// `text` with each ASCII letter in lower case.
pub open spec fn lower_text(text: Seq<u8>) -> Seq<u8> {
    Seq::new(text.len(), |i: int| ascii_lower(text[i]))
}

/// The case of the letters does not matter: a text decodes to what its
/// lower-case form decodes to, and fails to decode where that one fails.
pub proof fn lemma_case_does_not_matter(text: Seq<u8>)
    ensures
        decode_hex(lower_text(text)) == decode_hex(text),
{
    let lower = lower_text(text);
    assert forall|i: int| 0 <= i < text.len() implies hex_digit_value(lower[i])
        == hex_digit_value(text[i]) by {
        assert(lower[i] == ascii_lower(text[i]));
    }
    if is_hex_text(text) {
        assert forall|i: int| 0 <= i < lower.len() implies (#[trigger] hex_digit_value(
            lower[i],
        )).is_some() by {
            assert(hex_digit_value(text[i]).is_some());
        }
        assert(decoded_prefix(lower, lower.len() as int / 2) =~= decoded_prefix(
            text,
            text.len() as int / 2,
        ));
    } else if text.len() % 2 == 0 {
        let at = choose|i: int| 0 <= i < text.len() && hex_digit_value(text[i]).is_none();
        assert(hex_digit_value(lower[at]).is_none());
    }
}

/// The value of the hex digit `c`, or `None` where `c` is none.
pub fn digit_value(c: u8) -> (value: Option<u8>)
    ensures
        value == hex_digit_value(c),
        value matches Some(v) ==> v < 16,
{
    if 0x30 <= c && c <= 0x39 {
        Some(c - 0x30)
    } else if 0x61 <= c && c <= 0x66 {
        Some(c - 0x61 + 10)
    } else if 0x41 <= c && c <= 0x46 {
        Some(c - 0x41 + 10)
    } else {
        None
    }
}

/// Decodes hex text into an erasable buffer. The buffer exists before the
/// first digit is read, so the bytes decoded so far are erased on the
/// failure path too.
pub fn decode(text: &str) -> (result: Option<ErasableBytes>)
    ensures
        match result {
            Some(buffer) => decode_hex(text.spec_bytes()) == Some(buffer@),
            None => decode_hex(text.spec_bytes()).is_none(),
        },
{
    let bytes = text.as_bytes();
    let n: usize = bytes.len();
    if n % 2 != 0 {
        return None;
    }
    let mut buffer = ErasableBytes::with_capacity(n / 2);
    let mut i: usize = 0;
    while i < n
        invariant
            bytes@ == text.spec_bytes(),
            n == bytes@.len(),
            n % 2 == 0,
            i % 2 == 0,
            i <= n,
            forall|j: int| 0 <= j < i ==> (#[trigger] hex_digit_value(bytes@[j])).is_some(),
            buffer@ == decoded_prefix(bytes@, i as int / 2),
        decreases n - i,
    {
        let high = digit_value(bytes[i]);
        let low = digit_value(bytes[i + 1]);
        match (high, low) {
            (Some(h), Some(l)) => {
                buffer.push(h * 16 + l);
                assert(decoded_prefix(bytes@, i as int / 2).push(
                    hex_pair_value(bytes@[i as int], bytes@[i + 1]),
                ) =~= decoded_prefix(bytes@, (i + 2) / 2));
            },
            _ => {
                assert(hex_digit_value(bytes@[i as int]).is_none() || hex_digit_value(
                    bytes@[i + 1],
                ).is_none());
                return None;
            },
        }
        i += 2;
    }
    Some(buffer)
}

} // verus!
