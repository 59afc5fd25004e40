//! The closed status enumeration through which every outcome of a detection
//! call is reported.

use vstd::prelude::*;

verus! {

/// The status of one detection call, the only channel through which failure
/// is reported. `Okay` means the detection result was produced; any other
/// value means no result was written.
#[derive(Clone, Copy, Debug, PartialEq, Eq, Structural)]
pub enum WlError {
    /// The input was valid text and a language was determined.
    Okay,
    /// The input bytes are not well-formed UTF-8.
    MalformedString,
    /// The input was valid text, but no language could be determined.
    DetectionFailed,
}

impl WlError {
    /// The single-byte discriminant that crosses the foreign-call boundary:
    /// `Okay` is 0, `MalformedString` is 1, `DetectionFailed` is 2.
    pub fn code(&self) -> (c: u8)
        ensures
            c == match *self {
                WlError::Okay => 0u8,
                WlError::MalformedString => 1u8,
                WlError::DetectionFailed => 2u8,
            },
    {
        match *self {
            WlError::Okay => 0u8,
            WlError::MalformedString => 1u8,
            WlError::DetectionFailed => 2u8,
        }
    }
}

} // verus!
