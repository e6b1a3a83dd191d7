//! Hexadecimal text, as the `hex` crate writes and reads it, with a model
//! that the rest of the library states its contracts over.

use vstd::prelude::*;

verus! {

/// Why a piece of hex text could not be decoded.
#[derive(Clone, Copy, Debug, PartialEq, Eq, Structural)]
pub enum HexError {
    /// A byte of the text is no hex digit; `index` is its position.
    InvalidHexCharacter { c: char, index: usize },
    /// The text has an odd number of digits.
    OddLength,
    /// The text does not have two digits for each byte of the target.
    InvalidStringLength,
}

/// The digit that stands for a value below sixteen, with letters in upper
/// case or in lower case.
pub open spec fn digit(n: int, upper: bool) -> u8 {
    if n < 10 {
        (0x30 + n) as u8
    } else if upper {
        (0x41 + n - 10) as u8
    } else {
        (0x61 + n - 10) as u8
    }
}

/// The lower-case digit that stands for a value below sixteen.
pub open spec fn lower_digit(n: int) -> u8 {
    digit(n, false)
}

/// The upper-case digit that stands for a value below sixteen.
pub open spec fn upper_digit(n: int) -> u8 {
    digit(n, true)
}

/// Hex text of `bytes`: two digits per byte, high nibble first.
pub open spec fn encode_text(bytes: Seq<u8>, upper: bool) -> Seq<char> {
    Seq::new(
        2 * bytes.len(),
        |i: int|
            if i % 2 == 0 {
                digit(bytes[i / 2] as int / 16, upper) as char
            } else {
                digit(bytes[i / 2] as int % 16, upper) as char
            },
    )
}

/// Lower-case hex text of `bytes`: two digits per byte, high nibble first.
pub open spec fn encode_lower(bytes: Seq<u8>) -> Seq<char> {
    encode_text(bytes, false)
}

/// Upper-case hex text of `bytes`: two digits per byte, high nibble first.
pub open spec fn encode_upper(bytes: Seq<u8>) -> Seq<char> {
    encode_text(bytes, true)
}

/// Whether `b` is one of `0-9`, `a-f`, `A-F`.
pub open spec fn is_hex_digit(b: u8) -> bool {
    (0x30 <= b <= 0x39) || (0x61 <= b <= 0x66) || (0x41 <= b <= 0x46)
}

/// The value of a hex digit.
pub open spec fn digit_value(b: u8) -> int {
    if 0x30 <= b <= 0x39 {
        b - 0x30
    } else if 0x61 <= b <= 0x66 {
        b - 0x61 + 10
    } else {
        b - 0x41 + 10
    }
}

/// The position of the first byte at or after `from` that is no hex digit,
/// or the length of the text where there is none.
pub open spec fn first_bad_digit(text: Seq<u8>, from: int) -> int
    decreases text.len() - from,
{
    if from < 0 || from >= text.len() {
        text.len() as int
    } else if !is_hex_digit(text[from]) {
        from
    } else {
        first_bad_digit(text, from + 1)
    }
}

/// The bytes that well-formed hex text of even length stands for.
pub open spec fn decoded_bytes(text: Seq<u8>) -> Seq<u8> {
    Seq::new(
        text.len() / 2,
        |i: int| (digit_value(text[2 * i]) * 16 + digit_value(text[2 * i + 1])) as u8,
    )
}

/// What decoding `text` into a buffer of `out_len` bytes gives: the length
/// checks come first, then the first byte that is no digit decides.
pub open spec fn decode_outcome(text: Seq<u8>, out_len: nat) -> Result<Seq<u8>, HexError> {
    if text.len() % 2 != 0 {
        Err(HexError::OddLength)
    } else if text.len() / 2 != out_len {
        Err(HexError::InvalidStringLength)
    } else if first_bad_digit(text, 0) < text.len() {
        Err(
            HexError::InvalidHexCharacter {
                c: text[first_bad_digit(text, 0)] as char,
                index: first_bad_digit(text, 0) as usize,
            },
        )
    } else {
        Ok(decoded_bytes(text))
    }
}

/// What decoding `text` into as many bytes as it has digit pairs gives.
pub open spec fn decode(text: Seq<u8>) -> Result<Seq<u8>, HexError> {
    decode_outcome(text, text.len() / 2)
}

/// The bytes of a text made of ASCII characters only.
pub open spec fn ascii_bytes(text: Seq<char>) -> Seq<u8> {
    Seq::new(text.len(), |i: int| text[i] as u8)
}

/// `hex::encode`: the text has two lower-case digits for each byte of
/// `data`, the high nibble first.
#[verifier::external_body]
pub(crate) fn encode(data: &[u8]) -> (text: String)
    ensures
        text@ == encode_lower(data@),
{
    hex::encode(data)
}

/// `hex::encode_upper`: as `encode`, with upper-case digits.
#[verifier::external_body]
pub(crate) fn encode_upper_case(data: &[u8]) -> (text: String)
    ensures
        text@ == encode_upper(data@),
{
    hex::encode_upper(data)
}

/// `hex::decode_to_slice`: fails on text of odd length, then on text that
/// does not hold two digits per byte of `out`, then on the first byte that is
/// no hex digit; otherwise every byte of `out` is written from its digit
/// pair. On failure only the length of `out` is known.
#[verifier::external_body]
pub(crate) fn decode_to_slice(text: &[u8], out: &mut Vec<u8>) -> (res: Result<(), HexError>)
    ensures
        final(out)@.len() == old(out)@.len(),
        match decode_outcome(text@, old(out)@.len()) {
            Ok(bytes) => res is Ok && final(out)@ == bytes,
            Err(e) => res == Err::<(), HexError>(e),
        },
{
    match hex::decode_to_slice(text, out.as_mut_slice()) {
        Ok(()) => Ok(()),
        Err(hex::FromHexError::InvalidHexCharacter { c, index }) => Err(
            HexError::InvalidHexCharacter { c, index },
        ),
        Err(hex::FromHexError::OddLength) => Err(HexError::OddLength),
        Err(hex::FromHexError::InvalidStringLength) => Err(HexError::InvalidStringLength),
    }
}

/// Text in which no byte from `from` on is a bad digit has none at all.
proof fn lemma_all_digits(text: Seq<u8>, from: int)
    requires
        0 <= from <= text.len(),
        forall|i: int| from <= i < text.len() ==> is_hex_digit(#[trigger] text[i]),
    ensures
        first_bad_digit(text, from) == text.len(),
    decreases text.len() - from,
{
    if from < text.len() {
        lemma_all_digits(text, from + 1);
    }
}

/// Decoding the hex text of any bytes, in either case, gives the bytes
/// back.
pub proof fn lemma_decode_encode(bytes: Seq<u8>, upper: bool)
    ensures
        decode(ascii_bytes(encode_text(bytes, upper))) == Ok::<Seq<u8>, HexError>(bytes),
{
    let text = ascii_bytes(encode_text(bytes, upper));
    assert forall|i: int| 0 <= i < text.len() implies is_hex_digit(#[trigger] text[i]) by {
        let b = bytes[i / 2] as int;
        assert(0 <= b / 16 < 16 && 0 <= b % 16 < 16);
    }
    lemma_all_digits(text, 0);
    assert forall|i: int| 0 <= i < bytes.len() implies decoded_bytes(text)[i] == bytes[i] by {
        let b = bytes[i] as int;
        assert((2 * i) / 2 == i && (2 * i + 1) / 2 == i);
        assert((2 * i) % 2 == 0 && (2 * i + 1) % 2 == 1);
        assert(0 <= b / 16 < 16 && 0 <= b % 16 < 16);
        assert(digit_value(text[2 * i]) == b / 16);
        assert(digit_value(text[2 * i + 1]) == b % 16);
        assert((b / 16) * 16 + b % 16 == b);
    }
    assert(decoded_bytes(text) =~= bytes);
}

/// Decoding the bytes of the lower-case hex text of any bytes gives the
/// bytes back.
pub proof fn lemma_round_trip(bytes: Seq<u8>)
    ensures
        decode(vstd::utf8::encode_utf8(encode_lower(bytes))) == Ok::<Seq<u8>, HexError>(bytes),
{
    let chars = encode_lower(bytes);
    lemma_encode_lower_is_ascii(bytes);
    vstd::utf8::is_ascii_chars_encode_utf8(chars);
    assert(vstd::utf8::encode_utf8(chars) =~= ascii_bytes(chars));
    lemma_decode_encode(bytes, false);
}

/// Every character of lower-case hex text is ASCII.
pub proof fn lemma_encode_lower_is_ascii(bytes: Seq<u8>)
    ensures
        vstd::utf8::is_ascii_chars(encode_lower(bytes)),
        encode_lower(bytes).len() == 2 * bytes.len(),
{
    assert forall|i: int| 0 <= i < encode_lower(bytes).len() implies encode_lower(bytes)[i] as u32
        <= 0x7f by {
        let b = bytes[i / 2] as int;
        assert(0 <= b / 16 < 16 && 0 <= b % 16 < 16);
    }
}

} // verus!
