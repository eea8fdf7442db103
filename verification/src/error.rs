//! Error values reported by the library.

use vstd::prelude::*;
use vstd::string::*;

verus! {

/// Declares the error type of the JSON parser so that it can be carried in
/// [`CherryRgbError::JsonParseError`]; nothing is known of its contents.
#[verifier::external_type_specification]
#[verifier::external_body]
pub struct ExJsonError(serde_json::Error);

/// Why a USB transfer failed, as the transport reported it.
#[derive(Clone, Copy, Debug, PartialEq, Eq, Structural)]
pub enum UsbErrorKind {
    Io,
    InvalidParam,
    Access,
    NoDevice,
    NotFound,
    Busy,
    Timeout,
    Overflow,
    Pipe,
    Interrupted,
    NoMem,
    NotSupported,
    BadDescriptor,
    Other,
}

/// Every failure the library reports.
#[derive(Debug)]
pub enum CherryRgbError {
    /// A caller passed a bad index or length: what was wrong, and the value.
    InvalidArgument(String, String),
    /// A USB transfer failed outside a request/response round trip.
    GeneralUsbError(UsbErrorKind),
    /// A USB transfer failed; the text says which call it was.
    UsbError(String, UsbErrorKind),
    /// A packet's stored checksum differs from the one its body gives.
    ChecksumError { calculated: u16, expected: u16, data: String },
    /// No matching device is attached.
    DeviceNotFoundError,
    /// A color profile entry is malformed; the text names it.
    ParseError(String),
    /// The text is not valid JSON.
    JsonParseError(serde_json::Error),
    /// A multi-packet operation did not reassemble fully.
    ProtocolError(String),
}

impl CherryRgbError {
    /// The text that describes this kind of error.
    pub open spec fn message_text(self) -> Seq<char> {
        match self {
            CherryRgbError::InvalidArgument(_, _) => "Invalid argument"@,
            CherryRgbError::GeneralUsbError(_) => "USB Error"@,
            CherryRgbError::UsbError(detail, _) => "USB Error, detail="@ + detail@,
            CherryRgbError::ChecksumError { .. } => "Checksum error"@,
            CherryRgbError::DeviceNotFoundError => "Device not found"@,
            CherryRgbError::ParseError(_) => "Parsing Error"@,
            CherryRgbError::JsonParseError(_) => "Json Parsing Error"@,
            CherryRgbError::ProtocolError(_) => "Protocol error"@,
        }
    }

    /// A one-line description of the error.
    pub fn message(&self) -> (text: String)
        ensures
            text@ == self.message_text(),
    {
        match self {
            CherryRgbError::InvalidArgument(_, _) => String::from_str("Invalid argument"),
            CherryRgbError::GeneralUsbError(_) => String::from_str("USB Error"),
            CherryRgbError::UsbError(detail, _) => String::from_str("USB Error, detail=").concat(
                detail.as_str(),
            ),
            CherryRgbError::ChecksumError { .. } => String::from_str("Checksum error"),
            CherryRgbError::DeviceNotFoundError => String::from_str("Device not found"),
            CherryRgbError::ParseError(_) => String::from_str("Parsing Error"),
            CherryRgbError::JsonParseError(_) => String::from_str("Json Parsing Error"),
            CherryRgbError::ProtocolError(_) => String::from_str("Protocol error"),
        }
    }
}

} // verus!
