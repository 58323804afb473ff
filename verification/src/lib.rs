//! Client-side logic of a chat-completion HTTP API.
//!
//! The library prepares the requests that the client sends and reads what the
//! endpoint sends back; it performs no input or output itself. A caller
//! takes an [`client::HttpRequest`] from [`client::prepare_send_message`] or
//! [`client::prepare_test_endpoint`], sends it, and hands the
//! [`client::Exchange`] that came of it to [`client::finish_send_message`] or
//! [`client::finish_test_endpoint`].

pub mod client;
pub mod json;
pub mod wire;
