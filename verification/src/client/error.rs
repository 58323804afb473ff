//! Why an operation of the client failed.

use vstd::prelude::*;

verus! {

/// Why an operation of the client failed. No failure is retried, and none is
/// fatal: each is handed to the caller as a value.
#[derive(Clone, Debug, PartialEq, Eq)]
pub enum ChatError {
    /// No response arrived: the connection could not be made or was cut, or
    /// the time allowed ran out. Carries the description of the cause.
    TransportError(String),
    /// The endpoint answered with a status outside 200 to 299. Carries the
    /// status.
    ApiStatusError(u16),
    /// The body of the response is no JSON text or does not have the shape of
    /// a response. Carries the description of the cause.
    DecodeError(String),
}

/// The mathematical content of a [`ChatError`].
pub enum ChatErrorView {
    TransportError(Seq<char>),
    ApiStatusError(u16),
    DecodeError(Seq<char>),
}

impl View for ChatError {
    type V = ChatErrorView;

    open spec fn view(&self) -> ChatErrorView {
        match self {
            ChatError::TransportError(cause) => ChatErrorView::TransportError(cause@),
            ChatError::ApiStatusError(status) => ChatErrorView::ApiStatusError(*status),
            ChatError::DecodeError(cause) => ChatErrorView::DecodeError(cause@),
        }
    }
}

/// The result of an operation, by its content.
pub open spec fn result_view<T: View>(r: Result<T, ChatError>) -> Result<T::V, ChatErrorView> {
    match r {
        Ok(value) => Ok(value@),
        Err(error) => Err(error@),
    }
}

} // verus!
