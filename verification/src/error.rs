//! The ways a conversion can fail, and the diagnostic message each one
//! carries.

use vstd::prelude::*;

verus! {

/// Why a conversion failed. Every failure surfaces as invalid data;
/// the variants tell the stages apart.
#[derive(Clone, Copy, Debug, PartialEq, Eq, Structural)]
pub enum MsbtError {
    /// The binary input had zero length.
    EmptyInput,
    /// The header's byte-order mark matched neither recognized pattern.
    UndeterminedEndianness,
    /// Both the primary and the fallback encoder failed or crashed.
    TextToBinaryFailed,
    /// Both the primary and the fallback decoder failed, crashed, or
    /// produced empty text.
    BinaryToTextFailed,
}

impl MsbtError {
    /// The diagnostic message attached to this failure. An undetermined
    /// byte order and a failed decode share one message: both end the
    /// same binary-to-text attempt.
    pub open spec fn message_spec(self) -> Seq<char> {
        match self {
            MsbtError::EmptyInput => "Msbt Binary data is empty"@,
            MsbtError::UndeterminedEndianness =>
                "Unable to process msbt from binary nor determine endianness"@,
            MsbtError::TextToBinaryFailed => "Unable to convert text to binary"@,
            MsbtError::BinaryToTextFailed =>
                "Unable to process msbt from binary nor determine endianness"@,
        }
    }

    /// The diagnostic message, as callers report it.
    pub fn message(&self) -> (r: &'static str)
        ensures
            r@ == self.message_spec(),
    {
        match self {
            MsbtError::EmptyInput => "Msbt Binary data is empty",
            MsbtError::UndeterminedEndianness =>
                "Unable to process msbt from binary nor determine endianness",
            MsbtError::TextToBinaryFailed => "Unable to convert text to binary",
            MsbtError::BinaryToTextFailed =>
                "Unable to process msbt from binary nor determine endianness",
        }
    }
}

} // verus!
