//! The requests that the client makes.

use crate::json::rendered;
use crate::wire::fields::text_view;
use crate::wire::message::history_view;
use crate::wire::{ChatMessage, ChatRequest, ChatRequestView};
use vstd::prelude::*;

verus! {

/// One header of a request.
#[derive(Clone, Debug, PartialEq, Eq)]
pub struct Header {
    pub name: String,
    pub value: String,
}

/// The mathematical content of a [`Header`].
pub struct HeaderView {
    pub name: Seq<char>,
    pub value: Seq<char>,
}

impl View for Header {
    type V = HeaderView;

    open spec fn view(&self) -> HeaderView {
        HeaderView { name: self.name@, value: self.value@ }
    }
}

/// The contents of a list of headers, in order.
pub open spec fn headers_view(headers: Seq<Header>) -> Seq<HeaderView> {
    headers.map_values(|header: Header| header@)
}

/// The header that names the content type of every request.
pub open spec fn content_type_header() -> HeaderView {
    HeaderView { name: "Content-Type"@, value: "application/json"@ }
}

/// The header that carries the key of the endpoint.
pub open spec fn key_header(key: Seq<char>) -> HeaderView {
    HeaderView { name: "x-functions-key"@, value: key }
}

/// Whether a key is given and is not empty.
pub open spec fn key_given(api_key: Option<Seq<char>>) -> bool {
    api_key matches Some(key) && key.len() > 0
}

/// The headers of a request: the content type, followed by the key of the
/// endpoint where a key is given and is not empty.
pub open spec fn headers_for(api_key: Option<Seq<char>>) -> Seq<HeaderView> {
    if key_given(api_key) {
        seq![content_type_header(), key_header(api_key->0)]
    } else {
        seq![content_type_header()]
    }
}

/// The content type is sent always. A header named `x-functions-key` is
/// sent exactly where a key is given and is not empty, and then once, with
/// the key as it is given.
pub proof fn lemma_key_header_iff_key_given(api_key: Option<Seq<char>>)
    ensures
        headers_for(api_key).contains(content_type_header()),
        key_given(api_key) ==> headers_for(api_key).contains(key_header(api_key->0)),
        forall|header: HeaderView|
            headers_for(api_key).contains(header) && header.name == "x-functions-key"@ ==> (
            key_given(api_key) && header == key_header(api_key->0)),
{
    reveal_strlit("Content-Type");
    reveal_strlit("x-functions-key");
    let headers = headers_for(api_key);
    assert(headers[0] == content_type_header());
    assert("x-functions-key"@.len() == 15);
}

/// Builds the headers of a request.
pub fn build_headers(api_key: &Option<String>) -> (headers: Vec<Header>)
    ensures
        headers_view(headers@) == headers_for(text_view(*api_key)),
{
    let mut headers: Vec<Header> = Vec::new();
    headers.push(Header { name: "Content-Type".to_owned(), value: "application/json".to_owned() });
    match api_key {
        Some(key) => {
            if !key.as_str().is_empty() {
                headers.push(Header { name: "x-functions-key".to_owned(), value: key.clone() });
            }
        },
        None => {},
    }
    headers
}

/// How a request is made.
#[derive(Clone, Copy, Debug, PartialEq, Eq)]
pub enum Method {
    Post,
}

/// A request for the caller to send: where to, with which headers and body,
/// and how long to wait for the response.
#[derive(Clone, Debug, PartialEq, Eq)]
pub struct HttpRequest {
    pub method: Method,
    pub url: String,
    pub headers: Vec<Header>,
    pub body: String,
    /// The seconds after which the caller gives up; `None` for no limit.
    pub timeout_secs: Option<u64>,
}

/// The mathematical content of an [`HttpRequest`].
pub struct HttpRequestView {
    pub method: Method,
    pub url: Seq<char>,
    pub headers: Seq<HeaderView>,
    pub body: Seq<char>,
    pub timeout_secs: Option<u64>,
}

impl View for HttpRequest {
    type V = HttpRequestView;

    open spec fn view(&self) -> HttpRequestView {
        HttpRequestView {
            method: self.method,
            url: self.url@,
            headers: headers_view(self.headers@),
            body: self.body@,
            timeout_secs: self.timeout_secs,
        }
    }
}

/// The seconds that a probe of the endpoint may take.
pub const PROBE_TIMEOUT_SECS: u64 = 5;

/// The payload of a probe: the input `ping`, no conversation, no user.
pub open spec fn probe_payload() -> ChatRequestView {
    ChatRequestView { user_input: "ping"@, conversation_history: Seq::empty(), user_guid: None }
}

/// The request that carries `payload` to the endpoint: a POST to the
/// endpoint's address, with the headers that the key calls for and the
/// payload as compact JSON text in the body.
pub open spec fn request_for(
    endpoint_url: Seq<char>,
    api_key: Option<Seq<char>>,
    payload: ChatRequestView,
    timeout_secs: Option<u64>,
) -> HttpRequestView {
    HttpRequestView {
        method: Method::Post,
        url: endpoint_url,
        headers: headers_for(api_key),
        body: rendered(payload.to_json()),
        timeout_secs,
    }
}

fn post(
    endpoint_url: String,
    api_key: &Option<String>,
    payload: &ChatRequest,
    timeout_secs: Option<u64>,
) -> (request: HttpRequest)
    ensures
        request@ == request_for(endpoint_url@, text_view(*api_key), payload@, timeout_secs),
{
    HttpRequest {
        method: Method::Post,
        url: endpoint_url,
        headers: build_headers(api_key),
        body: payload.encode(),
        timeout_secs,
    }
}

/// The request that sends a message: a POST of the user's input, the
/// conversation so far and the user's identifier, with no limit on the time
/// that the endpoint may take. The address is not looked at: one that is no
/// URL is for the transport to refuse.
pub fn prepare_send_message(
    endpoint_url: String,
    api_key: Option<String>,
    user_input: String,
    conversation_history: Vec<ChatMessage>,
    user_guid: Option<String>,
) -> (request: HttpRequest)
    ensures
        request@ == request_for(
            endpoint_url@,
            text_view(api_key),
            ChatRequestView {
                user_input: user_input@,
                conversation_history: history_view(conversation_history@),
                user_guid: text_view(user_guid),
            },
            None,
        ),
{
    let payload = ChatRequest { user_input, conversation_history, user_guid };
    post(endpoint_url, &api_key, &payload, None)
}

/// The request that probes the endpoint: the same POST with the payload of a
/// probe, to be given up after five seconds.
pub fn prepare_test_endpoint(endpoint_url: String, api_key: Option<String>) -> (request:
    HttpRequest)
    ensures
        request@ == request_for(
            endpoint_url@,
            text_view(api_key),
            probe_payload(),
            Some(PROBE_TIMEOUT_SECS),
        ),
{
    let payload = ChatRequest {
        user_input: "ping".to_owned(),
        conversation_history: Vec::new(),
        user_guid: None,
    };
    assert(payload@.conversation_history =~= Seq::empty());
    post(endpoint_url, &api_key, &payload, Some(PROBE_TIMEOUT_SECS))
}

} // verus!
