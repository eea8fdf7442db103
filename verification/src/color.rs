//! RGB colors.

use crate::error::CherryRgbError;
use crate::hexcode::{decode_hex, hex_bytes, is_hex, HexError};
use vstd::prelude::*;
use vstd::string::*;
use vstd::utf8::encode_utf8;

verus! {

/// One color: red, green and blue, no alpha.
#[derive(Clone, Copy, Debug, PartialEq, Eq, Structural, Hash)]
pub struct OwnRGB8 {
    pub r: u8,
    pub g: u8,
    pub b: u8,
}

/// Whether `text` spells a color: six hexadecimal digits.
pub open spec fn is_color_text(text: Seq<u8>) -> bool {
    is_hex(text) && text.len() == 6
}

/// The color that six hexadecimal digits spell: red, then green, then blue.
pub open spec fn color_of_text(text: Seq<u8>) -> OwnRGB8 {
    OwnRGB8 { r: hex_bytes(text)[0], g: hex_bytes(text)[1], b: hex_bytes(text)[2] }
}

/// Why `text` spells no color.
pub open spec fn color_text_fault(text: Seq<u8>) -> Seq<char> {
    if text.len() % 2 == 1 {
        "Odd number of digits"@
    } else if !is_hex(text) {
        "Invalid character"@
    } else {
        "Invalid string length"@
    }
}

/// The message of the error that refuses `text` as a color.
pub open spec fn color_text_error(text: Seq<char>) -> Seq<char> {
    "Failed parsing hex color '"@ + text + "', err: "@ + color_text_fault(encode_utf8(text))
}

/// The color that `text` spells, if its bytes are six hexadecimal digits.
pub open spec fn color_of(text: Seq<char>) -> Option<OwnRGB8> {
    if is_color_text(encode_utf8(text)) {
        Some(color_of_text(encode_utf8(text)))
    } else {
        None
    }
}

impl OwnRGB8 {
    /// The three bytes of the color in wire order.
    pub open spec fn bytes(self) -> Seq<u8> {
        seq![self.r, self.g, self.b]
    }

    pub fn new(r: u8, g: u8, b: u8) -> (color: Self)
        ensures
            color == (OwnRGB8 { r, g, b }),
    {
        OwnRGB8 { r, g, b }
    }

    /// Black: all three channels off.
    pub open spec fn black() -> Self {
        OwnRGB8 { r: 0, g: 0, b: 0 }
    }

    /// Read a color from six hexadecimal digits, such as `ff8000`. Any other
    /// text is refused with an error that holds the text and says why.
    pub fn from_hex(text: &str) -> (r: Result<Self, CherryRgbError>)
        ensures
            match color_of(text@) {
                Some(color) => r == Ok::<Self, CherryRgbError>(color),
                None => r matches Err(CherryRgbError::ParseError(m)) && m@ == color_text_error(
                    text@,
                ),
            },
    {
        let fault: &str = match decode_hex(text.as_bytes()) {
            Ok(bytes) => {
                if bytes.len() == 3 {
                    return Ok(OwnRGB8 { r: bytes[0], g: bytes[1], b: bytes[2] });
                }
                "Invalid string length"
            },
            Err(HexError::OddLength) => "Odd number of digits",
            Err(HexError::InvalidHexCharacter { .. }) => "Invalid character",
            Err(HexError::InvalidStringLength) => "Invalid string length",
        };
        let message = String::from_str("Failed parsing hex color '").concat(text).concat(
            "', err: ",
        ).concat(fault);
        Err(CherryRgbError::ParseError(message))
    }
}

impl Default for OwnRGB8 {
    fn default() -> (color: Self)
        ensures
            color == OwnRGB8::black(),
    {
        OwnRGB8 { r: 0, g: 0, b: 0 }
    }
}

impl core::str::FromStr for OwnRGB8 {
    type Err = CherryRgbError;

    /// The same as [`OwnRGB8::from_hex`].
    fn from_str(s: &str) -> (r: Result<Self, CherryRgbError>)
        ensures
            match color_of(s@) {
                Some(color) => r == Ok::<Self, CherryRgbError>(color),
                None => r matches Err(CherryRgbError::ParseError(m)) && m@ == color_text_error(s@),
            },
    {
        OwnRGB8::from_hex(s)
    }
}

} // verus!
