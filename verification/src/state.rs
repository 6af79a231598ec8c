//! The form the user fills in and the transition function that drives it.

use vstd::prelude::*;
use crate::display::{display_text, outcome_text, outcome_view};
use crate::error::ConversionError;

verus! {

/// An event sent by the user interface.
#[derive(Debug)]
pub enum Message {
    /// The user asked for the conversion.
    Convert,
    /// The amount field now holds this text.
    UpdateAmount(String),
    /// The source currency field now holds this text.
    UpdateFromCurrency(String),
    /// The destination currency field now holds this text.
    UpdateToCurrency(String),
}

/// A [`Message`] with its texts seen as sequences of characters.
pub enum MessageView {
    Convert,
    UpdateAmount(Seq<char>),
    UpdateFromCurrency(Seq<char>),
    UpdateToCurrency(Seq<char>),
}

impl View for Message {
    type V = MessageView;

    open spec fn view(&self) -> MessageView {
        match self {
            Message::Convert => MessageView::Convert,
            Message::UpdateAmount(text) => MessageView::UpdateAmount(text@),
            Message::UpdateFromCurrency(text) => MessageView::UpdateFromCurrency(text@),
            Message::UpdateToCurrency(text) => MessageView::UpdateToCurrency(text@),
        }
    }
}

impl Clone for Message {
    fn clone(&self) -> (copy: Self)
        ensures
            copy@ == self@,
    {
        match self {
            Message::Convert => Message::Convert,
            Message::UpdateAmount(text) => Message::UpdateAmount(text.clone()),
            Message::UpdateFromCurrency(text) => Message::UpdateFromCurrency(text.clone()),
            Message::UpdateToCurrency(text) => Message::UpdateToCurrency(text.clone()),
        }
    }
}

/// What the form holds, as mathematical values.
pub struct FormView {
    pub amount: Seq<char>,
    pub from_currency: Seq<char>,
    pub to_currency: Seq<char>,
    /// `None` until a conversion has been attempted, then the text shown.
    pub result: Option<Seq<char>>,
}

/// The state behind the form: the raw text of the three input fields and the
/// text of the last result, if there has been one.
pub struct ConverterState {
    amount: String,
    from_currency: String,
    to_currency: String,
    converted_amount: Option<String>,
}

impl View for ConverterState {
    type V = FormView;

    closed spec fn view(&self) -> FormView {
        FormView {
            amount: self.amount@,
            from_currency: self.from_currency@,
            to_currency: self.to_currency@,
            result: match self.converted_amount {
                Some(text) => Some(text@),
                None => None,
            },
        }
    }
}

/// What a `Convert` event asks the driver to convert: the field texts at the
/// moment of the event. The amount is still the raw text of its field.
#[derive(Debug)]
pub struct ConversionRequest {
    pub amount: String,
    pub from_currency: String,
    pub to_currency: String,
}

/// A [`ConversionRequest`] with its texts seen as sequences of characters.
pub struct RequestView {
    pub amount: Seq<char>,
    pub from_currency: Seq<char>,
    pub to_currency: Seq<char>,
}

impl View for ConversionRequest {
    type V = RequestView;

    open spec fn view(&self) -> RequestView {
        RequestView {
            amount: self.amount@,
            from_currency: self.from_currency@,
            to_currency: self.to_currency@,
        }
    }
}

/// The form at program start: every field empty, no result yet.
pub open spec fn empty_form() -> FormView {
    FormView {
        amount: Seq::empty(),
        from_currency: Seq::empty(),
        to_currency: Seq::empty(),
        result: None,
    }
}

/// The form after an event. A field update replaces that field verbatim and
/// touches nothing else; `Convert` leaves the form as it is until its
/// outcome is recorded.
pub open spec fn next_form(form: FormView, message: MessageView) -> FormView {
    match message {
        MessageView::Convert => form,
        MessageView::UpdateAmount(text) => FormView { amount: text, ..form },
        MessageView::UpdateFromCurrency(text) => FormView { from_currency: text, ..form },
        MessageView::UpdateToCurrency(text) => FormView { to_currency: text, ..form },
    }
}

/// The request made from a form: its three input fields, and nothing of its
/// last result.
pub open spec fn request_of(form: FormView) -> RequestView {
    RequestView {
        amount: form.amount,
        from_currency: form.from_currency,
        to_currency: form.to_currency,
    }
}

/// The request an event gives rise to: one for `Convert`, none otherwise.
pub open spec fn requested(form: FormView, message: MessageView) -> Option<RequestView> {
    match message {
        MessageView::Convert => Some(request_of(form)),
        _ => None,
    }
}

/// The form once the outcome of a conversion is recorded: the input fields
/// are kept and the result is the text of the outcome.
pub open spec fn form_with_outcome(
    form: FormView,
    outcome: Result<Seq<char>, ConversionError>,
) -> FormView {
    FormView { result: Some(outcome_text(outcome)), ..form }
}

/// The form after a whole conversion: the `Convert` event, then the
/// recording of what `backend` makes of the request. `backend` stands for
/// everything the driver does with a request, from parsing the amount to
/// formatting the product.
pub open spec fn form_after_conversion(
    form: FormView,
    backend: spec_fn(RequestView) -> Result<Seq<char>, ConversionError>,
) -> FormView {
    form_with_outcome(next_form(form, MessageView::Convert), backend(request_of(form)))
}

/// The text of the result label: the last result, or a prompt while there
/// is none.
pub open spec fn label_text(form: FormView) -> Seq<char> {
    match form.result {
        Some(text) => text,
        None => "Enter details to convert"@,
    }
}

/// Handles one event of the user interface.
///
/// The three field updates store their text. `Convert` changes nothing by
/// itself: it returns the request that the driver has to carry out, whose
/// outcome goes back into the state through
/// [`ConverterState::record_outcome`].
pub fn update(state: &mut ConverterState, message: Message) -> (request: Option<ConversionRequest>)
    ensures
        final(state)@ == next_form(old(state)@, message@),
        match request {
            Some(r) => requested(old(state)@, message@) == Some(r@),
            None => requested(old(state)@, message@) is None,
        },
{
    match message {
        Message::Convert => {
            Some(
                ConversionRequest {
                    amount: state.amount.clone(),
                    from_currency: state.from_currency.clone(),
                    to_currency: state.to_currency.clone(),
                },
            )
        },
        Message::UpdateAmount(amount) => {
            state.amount = amount;
            None
        },
        Message::UpdateFromCurrency(currency) => {
            state.from_currency = currency;
            None
        },
        Message::UpdateToCurrency(currency) => {
            state.to_currency = currency;
            None
        },
    }
}

impl ConverterState {
    /// Creates the state of program start: empty fields and no result.
    pub fn new() -> (state: Self)
        ensures
            state@ == empty_form(),
    {
        ConverterState {
            amount: String::new(),
            from_currency: String::new(),
            to_currency: String::new(),
            converted_amount: None,
        }
    }

    /// Stores the outcome of a conversion as the text to show: the formatted
    /// amount, or `Error: ` followed by the message of the error.
    pub fn record_outcome(&mut self, outcome: Result<String, ConversionError>)
        ensures
            final(self)@ == form_with_outcome(old(self)@, outcome_view(outcome)),
    {
        self.converted_amount = Some(display_text(outcome));
    }

    /// Returns the text of the result label: the last result, or the prompt
    /// `Enter details to convert` before the first conversion.
    pub fn result_label(&self) -> (label: &str)
        ensures
            label@ == label_text(self@),
    {
        match &self.converted_amount {
            Some(text) => text.as_str(),
            None => "Enter details to convert",
        }
    }

    /// Returns the text of the amount field.
    pub fn amount(&self) -> (text: &str)
        ensures
            text@ == self@.amount,
    {
        self.amount.as_str()
    }

    /// Returns the text of the source currency field.
    pub fn from_currency(&self) -> (text: &str)
        ensures
            text@ == self@.from_currency,
    {
        self.from_currency.as_str()
    }

    /// Returns the text of the destination currency field.
    pub fn to_currency(&self) -> (text: &str)
        ensures
            text@ == self@.to_currency,
    {
        self.to_currency.as_str()
    }

    /// Returns the text of the last result, or `None` before the first
    /// conversion.
    pub fn converted_amount(&self) -> (text: Option<&str>)
        ensures
            match text {
                Some(t) => self@.result == Some(t@),
                None => self@.result is None,
            },
    {
        match &self.converted_amount {
            Some(text) => Some(text.as_str()),
            None => None,
        }
    }
}

impl Default for ConverterState {
    fn default() -> (state: Self)
        ensures
            state@ == empty_form(),
    {
        ConverterState::new()
    }
}

/// The result is absent at program start, no event but the recording of an
/// outcome changes it, and a recorded outcome leaves a result behind and
/// the input fields as they were.
pub proof fn lemma_result_lifecycle(
    form: FormView,
    message: MessageView,
    outcome: Result<Seq<char>, ConversionError>,
)
    ensures
        empty_form().result is None,
        next_form(form, message).result == form.result,
        form_with_outcome(form, outcome).result == Some(outcome_text(outcome)),
        request_of(form_with_outcome(form, outcome)) == request_of(form),
{
}

/// Converting twice in a row, with the fields untouched and a backend that
/// answers a request the same way each time, makes the same request twice
/// and leaves the form exactly as the first conversion left it: nothing of
/// an earlier conversion reaches a later one.
pub proof fn lemma_conversion_idempotent(
    form: FormView,
    backend: spec_fn(RequestView) -> Result<Seq<char>, ConversionError>,
)
    ensures
        request_of(form_after_conversion(form, backend)) == request_of(form),
        form_after_conversion(form_after_conversion(form, backend), backend)
            == form_after_conversion(form, backend),
{
}

} // verus!
