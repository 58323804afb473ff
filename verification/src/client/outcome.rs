//! The reading of what came back from the endpoint.

use super::error::{result_view, ChatError, ChatErrorView};
use crate::json::{parsed, JsonView};
use crate::wire::{ChatResponse, ChatResponseView};
use vstd::prelude::*;

verus! {

/// What came of sending a request.
#[derive(Clone, Debug, PartialEq, Eq)]
pub enum Exchange {
    /// No response arrived: the connection failed or was cut, or the time
    /// allowed ran out. `cause` describes what happened.
    Failed { cause: String },
    /// The endpoint answered with this status and these bytes as the body.
    /// The body is looked at only after a message was sent and answered with
    /// a status of the success range: a caller may leave it unread, and
    /// empty here, in every other case.
    Answered { status: u16, body: Vec<u8> },
}

/// The mathematical content of an [`Exchange`].
pub enum ExchangeView {
    Failed { cause: Seq<char> },
    Answered { status: u16, body: Seq<u8> },
}

impl View for Exchange {
    type V = ExchangeView;

    open spec fn view(&self) -> ExchangeView {
        match self {
            Exchange::Failed { cause } => ExchangeView::Failed { cause: cause@ },
            Exchange::Answered { status, body } => ExchangeView::Answered {
                status: *status,
                body: body@,
            },
        }
    }
}

/// A status in the success range, 200 to 299.
pub open spec fn success_status(status: u16) -> bool {
    200 <= status <= 299
}

/// Whether a status is in the success range.
pub fn is_success(status: u16) -> (success: bool)
    ensures
        success == success_status(status),
{
    200 <= status && status <= 299
}

/// What the body of a successful answer gives, once parsed to `json`: the
/// response that the value stands for, or a decode error with the cause for
/// which it stands for none.
pub open spec fn response_of(json: JsonView) -> Result<ChatResponseView, ChatErrorView> {
    match ChatResponseView::from_json(json) {
        Ok(response) => Ok(response),
        Err(cause) => Err(ChatErrorView::DecodeError(cause)),
    }
}

/// A body that parses to the JSON object of a response gives that response,
/// equal to it field by field.
pub proof fn lemma_response_of_well_formed_body(response: ChatResponseView)
    ensures
        response_of(response.to_json()) == Ok::<ChatResponseView, ChatErrorView>(response),
{
    response.lemma_round_trip();
}

/// Whether `result` is what sending a message gives after `exchange`:
/// - a transport error with the cause, where no response arrived;
/// - an API status error with the status, where the status is outside the
///   success range, whatever the body;
/// - what the parsed body gives, where the status is in the range and the
///   body is JSON text;
/// - a decode error, where the status is in the range and the body is no JSON
///   text.
pub open spec fn send_message_gives(
    exchange: ExchangeView,
    result: Result<ChatResponseView, ChatErrorView>,
) -> bool {
    match exchange {
        ExchangeView::Failed { cause } => result == Err::<ChatResponseView, ChatErrorView>(
            ChatErrorView::TransportError(cause),
        ),
        ExchangeView::Answered { status, body } => if !success_status(status) {
            result == Err::<ChatResponseView, ChatErrorView>(ChatErrorView::ApiStatusError(status))
        } else {
            match parsed(body) {
                Some(json) => result == response_of(json),
                None => result matches Err(ChatErrorView::DecodeError(_)),
            }
        },
    }
}

/// Reads the outcome of sending a message.
pub fn finish_send_message(exchange: Exchange) -> (result: Result<ChatResponse, ChatError>)
    ensures
        send_message_gives(exchange@, result_view(result)),
{
    match exchange {
        Exchange::Failed { cause } => Err(ChatError::TransportError(cause)),
        Exchange::Answered { status, body } => {
            if !is_success(status) {
                Err(ChatError::ApiStatusError(status))
            } else {
                match ChatResponse::decode(body.as_slice()) {
                    Ok(response) => Ok(response),
                    Err(cause) => Err(ChatError::DecodeError(cause)),
                }
            }
        },
    }
}

/// What probing the endpoint gives after `exchange`: a transport error with
/// the cause where no response arrived; otherwise whether the status is in
/// the success range. The body is not looked at.
pub open spec fn test_endpoint_gives(exchange: ExchangeView) -> Result<bool, ChatErrorView> {
    match exchange {
        ExchangeView::Failed { cause } => Err(ChatErrorView::TransportError(cause)),
        ExchangeView::Answered { status, body } => Ok(success_status(status)),
    }
}

/// Reads the outcome of probing the endpoint.
pub fn finish_test_endpoint(exchange: Exchange) -> (result: Result<bool, ChatError>)
    ensures
        result matches Ok(usable) ==> test_endpoint_gives(exchange@) == Ok::<bool, ChatErrorView>(
            usable,
        ),
        result matches Err(error) ==> test_endpoint_gives(exchange@) == Err::<bool, ChatErrorView>(
            error@,
        ),
{
    match exchange {
        Exchange::Failed { cause } => Err(ChatError::TransportError(cause)),
        Exchange::Answered { status, body } => Ok(is_success(status)),
    }
}

} // verus!
