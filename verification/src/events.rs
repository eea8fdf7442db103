//! Key events: which of the frames read from the keyboard are passed on.

use crate::error::{CherryRgbError, UsbErrorKind};
use vstd::prelude::*;

verus! {

/// Whether a frame is a bogus key event: it has at least three bytes and
/// the third has bit 3 or a higher one set.
pub open spec fn is_bogus(frame: Seq<u8>) -> bool {
    frame.len() >= 3 && frame[2] >= 8
}

/// Whether `frame` is a bogus key event, which is not passed on.
pub fn is_bogus_event(frame: &[u8]) -> (bogus: bool)
    ensures
        bogus == is_bogus(frame@),
{
    frame.len() >= 3 && frame[2] >= 8
}

/// Whether `r` is what becomes of one read for key events: a frame is
/// passed on as it is unless it is bogus; a timeout means that no key event
/// came; any other failure is reported.
pub open spec fn is_forwarding_of(
    read: Result<Vec<u8>, UsbErrorKind>,
    r: Result<Option<Vec<u8>>, CherryRgbError>,
) -> bool {
    match read {
        Ok(frame) => if is_bogus(frame@) {
            r matches Ok(None)
        } else {
            r matches Ok(Some(out)) && out@ == frame@
        },
        Err(UsbErrorKind::Timeout) => r matches Ok(None),
        Err(kind) => r matches Err(CherryRgbError::GeneralUsbError(k)) && k == kind,
    }
}

/// Decide what to pass on to the virtual keyboard after one read for key
/// events: the frame, or nothing.
pub fn forward_filtered_keys(read: Result<Vec<u8>, UsbErrorKind>) -> (r: Result<
    Option<Vec<u8>>,
    CherryRgbError,
>)
    ensures
        is_forwarding_of(read, r),
{
    match read {
        Ok(frame) => {
            if is_bogus_event(frame.as_slice()) {
                return Ok(None);
            }
            Ok(Some(frame))
        },
        Err(kind) => {
            if kind == UsbErrorKind::Timeout {
                return Ok(None);
            }
            Err(CherryRgbError::GeneralUsbError(kind))
        },
    }
}

} // verus!
