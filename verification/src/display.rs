//! The text shown once a conversion has been attempted.

use vstd::prelude::*;
use vstd::string::StringExecFns;
use crate::error::ConversionError;

verus! {

/// The text shown for a failed conversion: a fixed prefix, then the message
/// of the error.
pub open spec fn error_text(error: ConversionError) -> Seq<char> {
    "Error: "@ + error.message_text()
}

/// The text shown for the outcome of a conversion: the formatted amount as
/// it was handed in, or the text of the error.
pub open spec fn outcome_text(outcome: Result<Seq<char>, ConversionError>) -> Seq<char> {
    match outcome {
        Ok(formatted) => formatted,
        Err(error) => error_text(error),
    }
}

/// The outcome of a conversion with its formatted amount seen as a sequence
/// of characters.
pub open spec fn outcome_view(outcome: Result<String, ConversionError>) -> Result<
    Seq<char>,
    ConversionError,
> {
    match outcome {
        Ok(formatted) => Ok(formatted@),
        Err(error) => Err(error),
    }
}

/// Returns the text shown for a failed conversion.
pub fn error_display(error: ConversionError) -> (text: String)
    ensures
        text@ == error_text(error),
{
    String::from_str("Error: ").concat(error.message())
}

/// Returns the text shown for the outcome of a conversion. A formatted
/// amount is passed through untouched; an error becomes its display text.
pub fn display_text(outcome: Result<String, ConversionError>) -> (text: String)
    ensures
        text@ == outcome_text(outcome_view(outcome)),
{
    match outcome {
        Ok(formatted) => formatted,
        Err(error) => error_display(error),
    }
}

/// Every failure is shown with the same prefix, whatever the error, so a
/// failure can always be told from an amount that does not start with it.
pub proof fn lemma_error_text_prefixed(error: ConversionError)
    ensures
        "Error: "@.is_prefix_of(error_text(error)),
{
    reveal_strlit("Error: ");
    assert(error_text(error).subrange(0, 7) =~= "Error: "@);
}

/// The three failures are shown as three fixed texts. Nothing of the cause
/// behind a failure appears in them.
pub proof fn lemma_error_texts()
    ensures
        error_text(ConversionError::RequestFailed) == "Error: Request failed"@,
        error_text(ConversionError::InvalidResponseFormat) == "Error: Invalid response format"@,
        error_text(ConversionError::CurrencyNotFound) == "Error: To currency not found"@,
{
    reveal_strlit("Error: ");
    reveal_strlit("Request failed");
    reveal_strlit("Invalid response format");
    reveal_strlit("To currency not found");
    reveal_strlit("Error: Request failed");
    reveal_strlit("Error: Invalid response format");
    reveal_strlit("Error: To currency not found");
    assert(error_text(ConversionError::RequestFailed) =~= "Error: Request failed"@);
    assert(error_text(ConversionError::InvalidResponseFormat)
        =~= "Error: Invalid response format"@);
    assert(error_text(ConversionError::CurrencyNotFound) =~= "Error: To currency not found"@);
}

/// Two failures are shown alike only if they are the same failure: a reply
/// in the wrong format is never shown as a missing currency, nor the other
/// way round.
pub proof fn lemma_error_texts_distinct(a: ConversionError, b: ConversionError)
    ensures
        error_text(a) == error_text(b) <==> a == b,
{
    reveal_strlit("Error: ");
    reveal_strlit("Request failed");
    reveal_strlit("Invalid response format");
    reveal_strlit("To currency not found");
    assert(error_text(ConversionError::RequestFailed)[7] == 'R');
    assert(error_text(ConversionError::InvalidResponseFormat)[7] == 'I');
    assert(error_text(ConversionError::CurrencyNotFound)[7] == 'T');
}

} // verus!
