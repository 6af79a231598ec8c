//! The exchange with the rate provider: where to ask, and how to read what
//! came back.

use vstd::prelude::*;
use vstd::string::StringExecFns;
use crate::display::{
    lemma_error_text_prefixed, lemma_error_texts, lemma_error_texts_distinct, outcome_text,
};
use crate::error::ConversionError;
use crate::number::Number;
use crate::rates::ConversionRates;

verus! {

/// The address of the provider's latest rates for the base currency `from`,
/// asked for with `credential`. Both are put into the path as they are.
pub open spec fn url_text(credential: Seq<char>, from: Seq<char>) -> Seq<char> {
    "https://v6.exchangerate-api.com/v6/"@ + credential + "/latest/"@ + from
}

/// Builds the address to `GET` for the latest rates of `from`.
pub fn request_url(credential: &str, from: &str) -> (url: String)
    ensures
        url@ == url_text(credential@, from@),
{
    String::from_str("https://v6.exchangerate-api.com/v6/").concat(credential).concat(
        "/latest/",
    ).concat(from)
}

/// What one round trip to the provider yielded.
pub enum ProviderReply {
    /// No reply arrived: the transport failed in some way.
    TransportFailed,
    /// A reply arrived, but its body did not yield a JSON object with a
    /// `conversion_rates` mapping from codes to numbers.
    Undecodable,
    /// A well-formed reply, with its rates.
    Rates(ConversionRates),
}

/// The rate that a reply gives for the destination code `to`, or the error
/// that the reply amounts to.
pub open spec fn rate_for(reply: ProviderReply, to: Seq<char>) -> Result<Number, ConversionError> {
    match reply {
        ProviderReply::TransportFailed => Err(ConversionError::RequestFailed),
        ProviderReply::Undecodable => Err(ConversionError::InvalidResponseFormat),
        ProviderReply::Rates(rates) => if rates@.contains_key(to) {
            Ok(rates@[to])
        } else {
            Err(ConversionError::CurrencyNotFound)
        },
    }
}

/// Reads a reply: the rate of `to` where the reply is well formed and holds
/// one for exactly this code, and otherwise the error for what went wrong.
pub fn resolve_rate(reply: &ProviderReply, to: &str) -> (rate: Result<Number, ConversionError>)
    ensures
        rate == rate_for(*reply, to@),
{
    match reply {
        ProviderReply::TransportFailed => Err(ConversionError::RequestFailed),
        ProviderReply::Undecodable => Err(ConversionError::InvalidResponseFormat),
        ProviderReply::Rates(rates) => match rates.get(to) {
            Some(rate) => Ok(rate),
            None => Err(ConversionError::CurrencyNotFound),
        },
    }
}

/// A reply yields a rate exactly when it is well formed and holds the
/// destination code; each of the three errors has its own cause.
pub proof fn lemma_rate_for_cases(reply: ProviderReply, to: Seq<char>)
    ensures
        rate_for(reply, to) is Ok <==> (reply matches ProviderReply::Rates(rates)
            && rates@.contains_key(to)),
        rate_for(reply, to) == Err::<Number, ConversionError>(ConversionError::RequestFailed)
            <==> reply is TransportFailed,
        rate_for(reply, to) == Err::<Number, ConversionError>(
            ConversionError::InvalidResponseFormat,
        ) <==> reply is Undecodable,
        rate_for(reply, to) == Err::<Number, ConversionError>(ConversionError::CurrencyNotFound)
            <==> (reply matches ProviderReply::Rates(rates) && !rates@.contains_key(to)),
{
}

/// A well-formed reply without the destination code is shown as exactly
/// `Error: To currency not found`.
pub proof fn lemma_missing_code_shown(rates: ConversionRates, to: Seq<char>)
    requires
        !rates@.contains_key(to),
    ensures
        rate_for(ProviderReply::Rates(rates), to) == Err::<Number, ConversionError>(
            ConversionError::CurrencyNotFound,
        ),
        outcome_text(Err(ConversionError::CurrencyNotFound)) == "Error: To currency not found"@,
{
    lemma_error_texts();
}

/// A transport failure is shown as exactly `Error: Request failed`,
/// whichever currencies were asked for: the reply carries no detail of the
/// failure, so none can reach the text.
pub proof fn lemma_transport_failure_shown(to: Seq<char>)
    ensures
        rate_for(ProviderReply::TransportFailed, to) == Err::<Number, ConversionError>(
            ConversionError::RequestFailed,
        ),
        outcome_text(Err(ConversionError::RequestFailed)) == "Error: Request failed"@,
        "Error: "@.is_prefix_of(outcome_text(Err(ConversionError::RequestFailed))),
{
    lemma_error_texts();
    lemma_error_text_prefixed(ConversionError::RequestFailed);
}

/// A reply that cannot be decoded is shown as exactly
/// `Error: Invalid response format`, which differs from what is shown for a
/// missing currency.
pub proof fn lemma_undecodable_shown(to: Seq<char>)
    ensures
        rate_for(ProviderReply::Undecodable, to) == Err::<Number, ConversionError>(
            ConversionError::InvalidResponseFormat,
        ),
        outcome_text(Err(ConversionError::InvalidResponseFormat))
            == "Error: Invalid response format"@,
        "Error: "@.is_prefix_of(outcome_text(Err(ConversionError::InvalidResponseFormat))),
        outcome_text(Err(ConversionError::InvalidResponseFormat)) != outcome_text(
            Err(ConversionError::CurrencyNotFound),
        ),
{
    lemma_error_texts();
    lemma_error_text_prefixed(ConversionError::InvalidResponseFormat);
    lemma_error_texts_distinct(
        ConversionError::InvalidResponseFormat,
        ConversionError::CurrencyNotFound,
    );
}

} // verus!
