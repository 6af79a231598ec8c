//! The ways a conversion can fail, and the message shown for each.

use vstd::prelude::*;

verus! {

/// Why a conversion produced no amount. The variants carry no payload: the
/// cause reported by the transport or by the decoder is dropped on purpose.
#[derive(Clone, Copy, Debug, PartialEq, Eq, Structural)]
pub enum ConversionError {
    /// The provider could not be reached or the exchange did not complete.
    RequestFailed,
    /// The reply was not a JSON object with a `conversion_rates` mapping.
    InvalidResponseFormat,
    /// The reply was well formed but has no rate for the destination code.
    CurrencyNotFound,
}

impl ConversionError {
    /// The human-readable message of this error.
    pub open spec fn message_text(self) -> Seq<char> {
        match self {
            ConversionError::RequestFailed => "Request failed"@,
            ConversionError::InvalidResponseFormat => "Invalid response format"@,
            ConversionError::CurrencyNotFound => "To currency not found"@,
        }
    }

    /// Returns the human-readable message of this error.
    pub fn message(self) -> (text: &'static str)
        ensures
            text@ == self.message_text(),
    {
        match self {
            ConversionError::RequestFailed => "Request failed",
            ConversionError::InvalidResponseFormat => "Invalid response format",
            ConversionError::CurrencyNotFound => "To currency not found",
        }
    }
}

} // verus!
