//! The two operations of the chat client, sending a message and probing the
//! endpoint, each as a request to send and a reading of what came back.
//! Sending is left to the caller: nothing here touches the network.

pub mod error;
pub mod outcome;
pub mod request;

pub use error::{ChatError, ChatErrorView};
pub use outcome::{finish_send_message, finish_test_endpoint, is_success, Exchange, ExchangeView};
pub use request::{
    build_headers, prepare_send_message, prepare_test_endpoint, Header, HeaderView, HttpRequest,
    HttpRequestView, Method, PROBE_TIMEOUT_SECS,
};
