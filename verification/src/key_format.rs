//! Keys written down in hexadecimal, as they appear in diagnostics.

use vstd::prelude::*;
use vstd::slice::slice_subrange;
use vstd::string::StringSliceAdditionalSpecFns;

verus! {

/// Why a text is not the hexadecimal form of a byte string.
#[derive(Clone, Copy, Debug, PartialEq, Eq)]
pub enum HexError {
    /// The byte `c` at position `index` is no hexadecimal digit.
    InvalidHexCharacter { c: char, index: usize },
    /// The text has an odd number of digits.
    OddLength,
    /// The text does not have the length that a fixed-size target asks for.
    InvalidStringLength,
}

/// The value of the hexadecimal digit `c`, nothing where `c` is no digit.
/// Digits are `0` to `9`, `a` to `f` and `A` to `F`.
pub open spec fn hex_digit(c: u8) -> Option<u8> {
    if 0x41 <= c <= 0x46 {
        Some((c - 0x41 + 10) as u8)
    } else if 0x61 <= c <= 0x66 {
        Some((c - 0x61 + 10) as u8)
    } else if 0x30 <= c <= 0x39 {
        Some((c - 0x30) as u8)
    } else {
        None
    }
}

/// `decoded` is what decoding the hexadecimal text `data` gives.
///
/// A text of odd length is refused. Otherwise every two digits give one
/// byte, the first digit its high half. A text with a byte that is no digit
/// is refused with the first such byte and its position.
pub open spec fn hex_decoded(data: Seq<u8>, decoded: Result<Seq<u8>, HexError>) -> bool {
    if data.len() % 2 != 0 {
        decoded == Err::<Seq<u8>, HexError>(HexError::OddLength)
    } else {
        match decoded {
            Ok(bytes) => {
                &&& bytes.len() * 2 == data.len()
                &&& forall|i: int|
                    0 <= i < bytes.len() ==> {
                        &&& hex_digit(data[2 * i]) matches Some(high)
                        &&& hex_digit(data[2 * i + 1]) matches Some(low)
                        &&& #[trigger] bytes[i] == high * 16 + low
                    }
            },
            Err(HexError::InvalidHexCharacter { c, index }) => {
                &&& index < data.len()
                &&& hex_digit(data[index as int]) is None
                &&& c as u32 == data[index as int]
                &&& forall|j: int| 0 <= j < index ==> (#[trigger] hex_digit(data[j])) is Some
            },
            Err(_) => false,
        }
    }
}

/// `hex::decode` on a byte string, with the error of the `hex` crate turned
/// into `HexError` variant by variant. The contract states what the function
/// is documented to give: one byte for every two digits, in either case of
/// the letters, `OddLength` for a text of odd length, and otherwise
/// `InvalidHexCharacter` with the first byte that is no digit.
#[verifier::external_body]
fn decode_hex(data: &[u8]) -> (decoded: Result<Vec<u8>, HexError>)
    ensures
        hex_decoded(
            data@,
            match decoded {
                Ok(bytes) => Ok(bytes@),
                Err(e) => Err(e),
            },
        ),
{
    match hex::decode(data) {
        Ok(bytes) => Ok(bytes),
        Err(hex::FromHexError::InvalidHexCharacter { c, index }) => Err(
            HexError::InvalidHexCharacter { c, index },
        ),
        Err(hex::FromHexError::OddLength) => Err(HexError::OddLength),
        Err(hex::FromHexError::InvalidStringLength) => Err(HexError::InvalidStringLength),
    }
}

/// The text starts with `0x` or `0X`.
pub open spec fn has_hex_prefix(text: Seq<u8>) -> bool {
    text.len() >= 2 && text[0] == 0x30 && (text[1] == 0x78 || text[1] == 0x58)
}

/// The digits of a key in hexadecimal: the text without its `0x` or `0X`, if
/// it starts with one.
pub open spec fn hex_digits_of(text: Seq<u8>) -> Seq<u8> {
    if has_hex_prefix(text) {
        text.subrange(2, text.len() as int)
    } else {
        text
    }
}

/// Reads a key written in hexadecimal, with or without a leading `0x` or
/// `0X`.
pub fn from_hex(key: &str) -> (decoded: Result<Vec<u8>, HexError>)
    ensures
        hex_decoded(
            hex_digits_of(key.spec_bytes()),
            match decoded {
                Ok(bytes) => Ok(bytes@),
                Err(e) => Err(e),
            },
        ),
{
    let text = key.as_bytes();
    if text.len() >= 2 && text[0] == 0x30 && (text[1] == 0x78 || text[1] == 0x58) {
        return decode_hex(slice_subrange(text, 2, text.len()));
    }
    decode_hex(text)
}

} // verus!
