use chat_api_client::json::Json;
use chat_api_client::wire::{
    decode_history, encode_history, ChatMessage, ChatRequest, ChatResponse,
};

fn message(role: &str, content: &str, timestamp: Option<&str>) -> ChatMessage {
    ChatMessage {
        role: role.to_string(),
        content: content.to_string(),
        timestamp: timestamp.map(|t| t.to_string()),
    }
}

fn object(entries: Vec<(&str, Json)>) -> Json {
    Json::Object(entries.into_iter().map(|(k, v)| (k.to_string(), v)).collect())
}

fn string(s: &str) -> Json {
    Json::Text(s.to_string())
}

#[test]
fn message_becomes_an_object_of_three_fields() {
    let with_time = message("user", "hello", Some("2024-05-01T10:00:00Z"));
    assert_eq!(
        with_time.to_json(),
        object(vec![
            ("role", string("user")),
            ("content", string("hello")),
            ("timestamp", string("2024-05-01T10:00:00Z")),
        ])
    );
    let without_time = message("assistant", "hi", None);
    assert_eq!(
        without_time.to_json(),
        object(vec![
            ("role", string("assistant")),
            ("content", string("hi")),
            ("timestamp", Json::Null),
        ])
    );
}

#[test]
fn message_is_read_from_an_object() {
    let json = object(vec![
        ("content", string("hello")),
        ("extra", Json::Bool(true)),
        ("role", string("user")),
    ]);
    assert_eq!(ChatMessage::from_json(&json), Ok(message("user", "hello", None)));
}

#[test]
fn message_with_a_mismatch_is_refused_with_its_cause() {
    assert_eq!(
        ChatMessage::from_json(&Json::Array(vec![])),
        Err("expected a JSON object".to_string())
    );
    assert_eq!(
        ChatMessage::from_json(&object(vec![("content", string("x"))])),
        Err("missing field `role`".to_string())
    );
    assert_eq!(
        ChatMessage::from_json(&object(vec![("role", string("user"))])),
        Err("missing field `content`".to_string())
    );
    assert_eq!(
        ChatMessage::from_json(&object(vec![("role", Json::Null), ("content", string("x"))])),
        Err("field `role` is not a string".to_string())
    );
    assert_eq!(
        ChatMessage::from_json(&object(vec![
            ("role", string("user")),
            ("content", string("x")),
            ("timestamp", Json::Bool(false)),
        ])),
        Err("field `timestamp` is not a string".to_string())
    );
}

#[test]
fn message_reports_the_first_mismatch() {
    let json = object(vec![("timestamp", Json::Bool(false)), ("content", Json::Null)]);
    assert_eq!(ChatMessage::from_json(&json), Err("missing field `role`".to_string()));
}

#[test]
fn history_round_trips_through_json_text() {
    let history = vec![
        message("system", "You are helpful.", None),
        message("user", "What is \"JSON\"?\n\tTell me.", Some("2024-05-01T10:00:00Z")),
        message("assistant", "A data format \u{2014} \u{1f600}", Some("")),
        message("", "", None),
    ];
    let text = encode_history(&history).render();
    let parsed = Json::parse(text.as_bytes()).unwrap();
    assert_eq!(decode_history(&parsed), Ok(history));
}

#[test]
fn empty_history_round_trips() {
    let text = encode_history(&vec![]).render();
    assert_eq!(text, "[]");
    let parsed = Json::parse(text.as_bytes()).unwrap();
    assert_eq!(decode_history(&parsed), Ok(vec![]));
}

#[test]
fn history_keeps_the_order_of_messages() {
    let history = vec![message("user", "one", None), message("user", "two", None)];
    assert_eq!(
        encode_history(&history).render(),
        "[{\"role\":\"user\",\"content\":\"one\",\"timestamp\":null},\
          {\"role\":\"user\",\"content\":\"two\",\"timestamp\":null}]"
    );
}

#[test]
fn history_with_a_mismatch_is_refused_with_the_first_cause() {
    assert_eq!(decode_history(&Json::Null), Err("expected a JSON array".to_string()));
    let json = Json::Array(vec![
        message("user", "fine", None).to_json(),
        object(vec![("role", string("user"))]),
        Json::Null,
    ]);
    assert_eq!(decode_history(&json), Err("missing field `content`".to_string()));
}

#[test]
fn request_is_written_with_its_fields_in_order() {
    let request = ChatRequest {
        user_input: "hello".to_string(),
        conversation_history: vec![message("user", "earlier", Some("t0"))],
        user_guid: None,
    };
    assert_eq!(
        request.encode(),
        "{\"user_input\":\"hello\",\"conversation_history\":[\
         {\"role\":\"user\",\"content\":\"earlier\",\"timestamp\":\"t0\"}],\"user_guid\":null}"
    );
    assert_eq!(request.to_json().render(), request.encode());
}

#[test]
fn response_with_all_fields_is_read() {
    let body = b"{\"assistant_response\":\"hi\",\"voice_response\":\"spoken\",\
                 \"agent_logs\":\"logs\",\"user_guid\":\"g-1\"}";
    assert_eq!(
        ChatResponse::decode(body),
        Ok(ChatResponse {
            assistant_response: "hi".to_string(),
            voice_response: Some("spoken".to_string()),
            agent_logs: Some("logs".to_string()),
            user_guid: Some("g-1".to_string()),
        })
    );
}

#[test]
fn absent_optional_fields_decode_to_no_value() {
    assert_eq!(
        ChatResponse::decode(b"{\"assistant_response\":\"hi\"}"),
        Ok(ChatResponse {
            assistant_response: "hi".to_string(),
            voice_response: None,
            agent_logs: None,
            user_guid: None,
        })
    );
    assert_eq!(
        ChatResponse::decode(b"{\"agent_logs\":\"logs\",\"assistant_response\":\"hi\"}"),
        Ok(ChatResponse {
            assistant_response: "hi".to_string(),
            voice_response: None,
            agent_logs: Some("logs".to_string()),
            user_guid: None,
        })
    );
}

#[test]
fn null_optional_fields_decode_to_no_value() {
    let body = b"{\"assistant_response\":\"hi\",\"voice_response\":null,\
                 \"agent_logs\":null,\"user_guid\":null}";
    assert_eq!(
        ChatResponse::decode(body),
        Ok(ChatResponse {
            assistant_response: "hi".to_string(),
            voice_response: None,
            agent_logs: None,
            user_guid: None,
        })
    );
}

#[test]
fn response_passes_over_other_fields() {
    let body = b"{\"status\":200,\"assistant_response\":\"hi\",\"tokens\":[1,2],\"more\":{}}";
    assert_eq!(
        ChatResponse::decode(body).map(|response| response.assistant_response),
        Ok("hi".to_string())
    );
}

#[test]
fn response_with_a_mismatch_is_refused_with_its_cause() {
    assert_eq!(
        ChatResponse::decode(b"{\"voice_response\":\"spoken\"}"),
        Err("missing field `assistant_response`".to_string())
    );
    assert_eq!(
        ChatResponse::decode(b"{\"assistant_response\":null}"),
        Err("field `assistant_response` is not a string".to_string())
    );
    assert_eq!(
        ChatResponse::decode(b"{\"assistant_response\":\"hi\",\"agent_logs\":[\"a\"]}"),
        Err("field `agent_logs` is not a string".to_string())
    );
    assert_eq!(
        ChatResponse::decode(b"{\"assistant_response\":\"hi\",\"user_guid\":7}"),
        Err("field `user_guid` is not a string".to_string())
    );
    assert_eq!(
        ChatResponse::decode(b"[\"hi\",null,null,null]"),
        Err("expected a JSON object".to_string())
    );
    assert_eq!(ChatResponse::decode(b"\"hi\""), Err("expected a JSON object".to_string()));
}

#[test]
fn response_from_what_is_no_json_is_refused_with_the_parser_s_words() {
    assert_eq!(
        ChatResponse::decode(b"<html>Service Unavailable</html>"),
        Err("expected value at line 1 column 1".to_string())
    );
    assert!(ChatResponse::decode(b"").is_err());
}

#[test]
fn response_becomes_an_object_of_four_fields() {
    let response = ChatResponse {
        assistant_response: "hi".to_string(),
        voice_response: None,
        agent_logs: Some("logs".to_string()),
        user_guid: None,
    };
    assert_eq!(
        response.to_json().render(),
        "{\"assistant_response\":\"hi\",\"voice_response\":null,\"agent_logs\":\"logs\",\
         \"user_guid\":null}"
    );
}

#[test]
fn response_round_trips_through_json_text() {
    let responses = vec![
        ChatResponse {
            assistant_response: "plain".to_string(),
            voice_response: None,
            agent_logs: None,
            user_guid: None,
        },
        ChatResponse {
            assistant_response: "with \"quotes\" and \\ and \n".to_string(),
            voice_response: Some(String::new()),
            agent_logs: Some("a\tb".to_string()),
            user_guid: Some("00000000-0000-0000-0000-000000000000".to_string()),
        },
    ];
    for response in responses {
        let body = response.to_json().render();
        assert_eq!(ChatResponse::decode(body.as_bytes()), Ok(response));
    }
}

#[test]
fn response_with_a_repeated_field_takes_the_last() {
    let json = object(vec![
        ("assistant_response", string("first")),
        ("user_guid", string("g")),
        ("assistant_response", string("last")),
    ]);
    let from_value = ChatResponse::from_json(&json);
    assert_eq!(
        from_value.as_ref().map(|response| response.assistant_response.as_str()),
        Ok("last")
    );
    assert_eq!(ChatResponse::decode(json.render().as_bytes()), from_value);
    assert_eq!(
        ChatResponse::decode(b"{\"assistant_response\":\"first\",\"assistant_response\":\"last\"}")
            .map(|response| response.assistant_response),
        Ok("last".to_string())
    );
}

#[test]
fn response_is_read_from_a_value() {
    let json = object(vec![("assistant_response", string("hi")), ("user_guid", string("g"))]);
    assert_eq!(
        ChatResponse::from_json(&json),
        Ok(ChatResponse {
            assistant_response: "hi".to_string(),
            voice_response: None,
            agent_logs: None,
            user_guid: Some("g".to_string()),
        })
    );
}
