use chat_api_client::client::{
    build_headers, finish_send_message, is_success, prepare_send_message, ChatError, Exchange,
    Header, Method,
};
use chat_api_client::wire::{ChatMessage, ChatResponse};

fn header(name: &str, value: &str) -> Header {
    Header { name: name.to_string(), value: value.to_string() }
}

fn answered(status: u16, body: &str) -> Exchange {
    Exchange::Answered { status, body: body.as_bytes().to_vec() }
}

#[test]
fn request_carries_input_history_and_user() {
    let history = vec![
        ChatMessage {
            role: "user".to_string(),
            content: "hello".to_string(),
            timestamp: Some("2024-01-01T00:00:00Z".to_string()),
        },
        ChatMessage { role: "assistant".to_string(), content: "hi".to_string(), timestamp: None },
    ];
    let request = prepare_send_message(
        "https://example.test/api/chat".to_string(),
        None,
        "how are you?".to_string(),
        history,
        Some("guid-1".to_string()),
    );
    assert_eq!(request.method, Method::Post);
    assert_eq!(request.url, "https://example.test/api/chat");
    assert_eq!(request.timeout_secs, None);
    assert_eq!(request.headers, vec![header("Content-Type", "application/json")]);
    assert_eq!(
        request.body,
        "{\"user_input\":\"how are you?\",\"conversation_history\":[\
         {\"role\":\"user\",\"content\":\"hello\",\"timestamp\":\"2024-01-01T00:00:00Z\"},\
         {\"role\":\"assistant\",\"content\":\"hi\",\"timestamp\":null}],\
         \"user_guid\":\"guid-1\"}"
    );
}

#[test]
fn request_with_nothing_but_input() {
    let request =
        prepare_send_message("http://localhost:7071".to_string(), None, String::new(), vec![], None);
    assert_eq!(
        request.body,
        "{\"user_input\":\"\",\"conversation_history\":[],\"user_guid\":null}"
    );
}

#[test]
fn request_does_not_look_at_the_address() {
    let request = prepare_send_message("not a url".to_string(), None, "x".to_string(), vec![], None);
    assert_eq!(request.url, "not a url");
}

#[test]
fn key_is_sent_where_one_is_given() {
    let request = prepare_send_message(
        "https://example.test".to_string(),
        Some("secret".to_string()),
        "x".to_string(),
        vec![],
        None,
    );
    assert_eq!(
        request.headers,
        vec![header("Content-Type", "application/json"), header("x-functions-key", "secret")]
    );
}

#[test]
fn key_is_not_sent_where_it_is_empty_or_absent() {
    let with_empty = prepare_send_message(
        "https://example.test".to_string(),
        Some(String::new()),
        "x".to_string(),
        vec![],
        None,
    );
    assert_eq!(with_empty.headers, vec![header("Content-Type", "application/json")]);
    let with_none =
        prepare_send_message("https://example.test".to_string(), None, "x".to_string(), vec![], None);
    assert_eq!(with_none.headers, vec![header("Content-Type", "application/json")]);
}

#[test]
fn headers_are_built_from_the_key_alone() {
    assert_eq!(build_headers(&None), vec![header("Content-Type", "application/json")]);
    assert_eq!(
        build_headers(&Some(String::new())),
        vec![header("Content-Type", "application/json")]
    );
    assert_eq!(
        build_headers(&Some(" ".to_string())),
        vec![header("Content-Type", "application/json"), header("x-functions-key", " ")]
    );
}

#[test]
fn success_with_well_formed_body_gives_the_decoded_fields() {
    let body = "{\"assistant_response\":\"hello there\",\"voice_response\":\"hello\",\
                \"agent_logs\":\"log line\",\"user_guid\":\"guid-1\"}";
    assert_eq!(
        finish_send_message(answered(200, body)),
        Ok(ChatResponse {
            assistant_response: "hello there".to_string(),
            voice_response: Some("hello".to_string()),
            agent_logs: Some("log line".to_string()),
            user_guid: Some("guid-1".to_string()),
        })
    );
}

#[test]
fn success_without_optional_fields_gives_no_value_for_them() {
    assert_eq!(
        finish_send_message(answered(201, "{\"assistant_response\":\"ok\"}")),
        Ok(ChatResponse {
            assistant_response: "ok".to_string(),
            voice_response: None,
            agent_logs: None,
            user_guid: None,
        })
    );
}

#[test]
fn status_500_gives_api_status_error() {
    assert_eq!(
        finish_send_message(answered(500, "{\"assistant_response\":\"ignored\"}")),
        Err(ChatError::ApiStatusError(500))
    );
}

#[test]
fn status_outside_the_success_range_gives_api_status_error() {
    for status in [0u16, 100, 199, 300, 301, 400, 404, 503, 999, u16::MAX] {
        assert_eq!(
            finish_send_message(answered(status, "not even json")),
            Err(ChatError::ApiStatusError(status))
        );
    }
}

#[test]
fn every_status_of_the_success_range_is_read() {
    for status in [200u16, 204, 250, 299] {
        assert!(finish_send_message(answered(status, "{\"assistant_response\":\"ok\"}")).is_ok());
    }
}

#[test]
fn malformed_json_gives_decode_error() {
    let result = finish_send_message(answered(200, "{not json"));
    assert!(matches!(result, Err(ChatError::DecodeError(_))));
}

#[test]
fn body_of_another_shape_gives_decode_error_with_the_cause() {
    assert_eq!(
        finish_send_message(answered(200, "{\"reply\":\"hi\"}")),
        Err(ChatError::DecodeError("missing field `assistant_response`".to_string()))
    );
    assert_eq!(
        finish_send_message(answered(200, "{\"assistant_response\":42}")),
        Err(ChatError::DecodeError("field `assistant_response` is not a string".to_string()))
    );
    assert_eq!(
        finish_send_message(answered(200, "null")),
        Err(ChatError::DecodeError("expected a JSON object".to_string()))
    );
}

#[test]
fn body_that_is_no_utf8_gives_decode_error() {
    let body = vec![b'{', b'"', 0xff, 0xfe, b'"', b':', b'1', b'}'];
    let result = finish_send_message(Exchange::Answered { status: 200, body });
    assert!(matches!(result, Err(ChatError::DecodeError(_))));
}

#[test]
fn no_response_gives_transport_error_with_the_cause() {
    assert_eq!(
        finish_send_message(Exchange::Failed { cause: "connection refused".to_string() }),
        Err(ChatError::TransportError("connection refused".to_string()))
    );
}

#[test]
fn success_range_is_200_to_299() {
    assert!(!is_success(199));
    assert!(is_success(200));
    assert!(is_success(299));
    assert!(!is_success(300));
    assert!(!is_success(0));
    assert!(!is_success(u16::MAX));
}
