//! What the endpoint answers.

use super::fields::{
    lemma_text_of_canonical, not_an_object, optional_text, optional_text_json, outcome_view, read_optional_text,
    read_required_text, required_text, text_or_null, text_view,
};
use crate::json::laws::lemma_lookup_found;
use crate::json::{parsed, Json, JsonView};
use vstd::prelude::*;

verus! {

/// What the endpoint answers: the assistant's reply and, where the endpoint
/// sends them, a spoken form of it, the agents' logs and the user's
/// identifier.
#[derive(Clone, Debug, PartialEq, Eq)]
pub struct ChatResponse {
    pub assistant_response: String,
    pub voice_response: Option<String>,
    pub agent_logs: Option<String>,
    pub user_guid: Option<String>,
}

/// The mathematical content of a [`ChatResponse`].
pub struct ChatResponseView {
    pub assistant_response: Seq<char>,
    pub voice_response: Option<Seq<char>>,
    pub agent_logs: Option<Seq<char>>,
    pub user_guid: Option<Seq<char>>,
}

impl View for ChatResponse {
    type V = ChatResponseView;

    open spec fn view(&self) -> ChatResponseView {
        ChatResponseView {
            assistant_response: self.assistant_response@,
            voice_response: text_view(self.voice_response),
            agent_logs: text_view(self.agent_logs),
            user_guid: text_view(self.user_guid),
        }
    }
}

impl ChatResponseView {
    /// The JSON object that stands for the response, with `null` for each
    /// field that has no value.
    pub open spec fn to_json(self) -> JsonView {
        JsonView::Object(
            seq![
                ("assistant_response"@, JsonView::Text(self.assistant_response)),
                ("voice_response"@, text_or_null(self.voice_response)),
                ("agent_logs"@, text_or_null(self.agent_logs)),
                ("user_guid"@, text_or_null(self.user_guid)),
            ],
        )
    }

    /// The response that a JSON value stands for, or the cause for which it
    /// stands for none. The value must be an object whose
    /// `assistant_response` is a string; each of `voice_response`,
    /// `agent_logs` and `user_guid` may be absent, `null` or a string. Fields
    /// are looked at in this order, and the first mismatch is the one
    /// reported; entries under other keys are passed over.
    pub open spec fn from_json(json: JsonView) -> Result<ChatResponseView, Seq<char>> {
        if !(json is Object) {
            Err(not_an_object())
        } else {
            match required_text(json, "assistant_response"@) {
                Err(cause) => Err(cause),
                Ok(assistant_response) => match optional_text(json, "voice_response"@) {
                    Err(cause) => Err(cause),
                    Ok(voice_response) => match optional_text(json, "agent_logs"@) {
                        Err(cause) => Err(cause),
                        Ok(agent_logs) => match optional_text(json, "user_guid"@) {
                            Err(cause) => Err(cause),
                            Ok(user_guid) => Ok(
                                ChatResponseView {
                                    assistant_response,
                                    voice_response,
                                    agent_logs,
                                    user_guid,
                                },
                            ),
                        },
                    },
                },
            }
        }
    }

    /// A response is read from the canonical form of a value as it is read
    /// from the value.
    pub proof fn lemma_from_json_of_canonical(json: JsonView)
        ensures
            ChatResponseView::from_json(json.canonical()) == ChatResponseView::from_json(json),
    {
        lemma_text_of_canonical(json, "assistant_response"@);
        lemma_text_of_canonical(json, "voice_response"@);
        lemma_text_of_canonical(json, "agent_logs"@);
        lemma_text_of_canonical(json, "user_guid"@);
    }

    /// Reading the JSON object of a response gives the response back, field
    /// by field.
    pub proof fn lemma_round_trip(self)
        ensures
            ChatResponseView::from_json(self.to_json()) == Ok::<ChatResponseView, Seq<char>>(
                self,
            ),
    {
        reveal_strlit("assistant_response");
        reveal_strlit("voice_response");
        reveal_strlit("agent_logs");
        reveal_strlit("user_guid");
        let entries = self.to_json()->Object_0;
        assert(entries[0].0.len() == 18 && entries[1].0.len() == 14 && entries[2].0.len() == 10
            && entries[3].0.len() == 9);
        lemma_lookup_found(entries, "assistant_response"@, 0);
        lemma_lookup_found(entries, "voice_response"@, 1);
        lemma_lookup_found(entries, "agent_logs"@, 2);
        lemma_lookup_found(entries, "user_guid"@, 3);
    }

    /// An optional field that the object lacks is no cause of a mismatch and
    /// decodes to no value: an object whose `assistant_response` is a string,
    /// and each of whose optional fields is absent, `null` or a string,
    /// stands for a response, in which every field that is absent or `null`
    /// has no value and every other has its string.
    pub proof fn lemma_absent_fields_have_no_value(json: JsonView, reply: Seq<char>)
        requires
            json is Object,
            json.field("assistant_response"@) == Some(JsonView::Text(reply)),
            optional_text(json, "voice_response"@) is Ok,
            optional_text(json, "agent_logs"@) is Ok,
            optional_text(json, "user_guid"@) is Ok,
        ensures
            ChatResponseView::from_json(json) matches Ok(response) && {
                &&& response.assistant_response == reply
                &&& json.field("voice_response"@) is None ==> response.voice_response is None
                &&& json.field("agent_logs"@) is None ==> response.agent_logs is None
                &&& json.field("user_guid"@) is None ==> response.user_guid is None
                &&& response.voice_response == optional_text(json, "voice_response"@)->Ok_0
                &&& response.agent_logs == optional_text(json, "agent_logs"@)->Ok_0
                &&& response.user_guid == optional_text(json, "user_guid"@)->Ok_0
            },
    {
    }
}

impl ChatResponse {
    /// The response as a JSON object.
    pub fn to_json(&self) -> (json: Json)
        ensures
            json@ == self@.to_json(),
    {
        let mut entries: Vec<(String, Json)> = Vec::new();
        entries.push(("assistant_response".to_owned(), Json::Text(self.assistant_response.clone())));
        entries.push(("voice_response".to_owned(), optional_text_json(&self.voice_response)));
        entries.push(("agent_logs".to_owned(), optional_text_json(&self.agent_logs)));
        entries.push(("user_guid".to_owned(), optional_text_json(&self.user_guid)));
        proof {
            Json::lemma_object_view(entries);
            assert(Json::Object(entries)@->Object_0 =~= self@.to_json()->Object_0);
        }
        Json::Object(entries)
    }

    /// Reads a response from a JSON value.
    pub fn from_json(json: &Json) -> (r: Result<ChatResponse, String>)
        ensures
            outcome_view(r) == ChatResponseView::from_json(json@),
    {
        match json {
            Json::Object(_) => {},
            _ => {
                return Err("expected a JSON object".to_owned());
            },
        }
        let assistant_response = match read_required_text(json, "assistant_response") {
            Ok(text) => text,
            Err(cause) => {
                return Err(cause);
            },
        };
        let voice_response = match read_optional_text(json, "voice_response") {
            Ok(text) => text,
            Err(cause) => {
                return Err(cause);
            },
        };
        let agent_logs = match read_optional_text(json, "agent_logs") {
            Ok(text) => text,
            Err(cause) => {
                return Err(cause);
            },
        };
        let user_guid = match read_optional_text(json, "user_guid") {
            Ok(text) => text,
            Err(cause) => {
                return Err(cause);
            },
        };
        Ok(ChatResponse { assistant_response, voice_response, agent_logs, user_guid })
    }

    /// Reads a response from the bytes of a response body. A body that is no
    /// JSON text is refused with the parser's description of the fault; one
    /// that is gives the response that its value stands for.
    pub fn decode(body: &[u8]) -> (r: Result<ChatResponse, String>)
        ensures
            parsed(body@) matches Some(json) ==> outcome_view(r) == ChatResponseView::from_json(
                json,
            ),
            parsed(body@) is None ==> r is Err,
    {
        match Json::parse(body) {
            Ok(json) => ChatResponse::from_json(&json),
            Err(cause) => Err(cause),
        }
    }
}

} // verus!
