//! The wire format of the chat API: what a message, a request and a response
//! look like as JSON values.

pub mod fields;
pub mod message;
pub mod request;
pub mod response;

pub use message::{decode_history, encode_history, ChatMessage, ChatMessageView};
pub use request::{ChatRequest, ChatRequestView};
pub use response::{ChatResponse, ChatResponseView};
