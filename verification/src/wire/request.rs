//! What is sent to the endpoint.

use super::fields::{optional_text_json, text_or_null, text_view};
use super::message::{
    encode_history, history_to_json, history_view, lemma_history_well_formed, ChatMessage,
    ChatMessageView,
};
use crate::json::{rendered, Json, JsonView};
use vstd::prelude::*;

verus! {

/// What is sent to the endpoint: the user's input, the conversation so far,
/// and the user's identifier where there is one.
#[derive(Clone, Debug, PartialEq, Eq)]
pub struct ChatRequest {
    pub user_input: String,
    pub conversation_history: Vec<ChatMessage>,
    pub user_guid: Option<String>,
}

/// The mathematical content of a [`ChatRequest`].
pub struct ChatRequestView {
    pub user_input: Seq<char>,
    pub conversation_history: Seq<ChatMessageView>,
    pub user_guid: Option<Seq<char>>,
}

impl View for ChatRequest {
    type V = ChatRequestView;

    open spec fn view(&self) -> ChatRequestView {
        ChatRequestView {
            user_input: self.user_input@,
            conversation_history: history_view(self.conversation_history@),
            user_guid: text_view(self.user_guid),
        }
    }
}

impl ChatRequestView {
    /// The JSON object that stands for the request.
    pub open spec fn to_json(self) -> JsonView {
        JsonView::Object(
            seq![
                ("user_input"@, JsonView::Text(self.user_input)),
                ("conversation_history"@, history_to_json(self.conversation_history)),
                ("user_guid"@, text_or_null(self.user_guid)),
            ],
        )
    }

    /// The object of a request is well formed.
    pub proof fn lemma_to_json_well_formed(self)
        ensures
            self.to_json().well_formed(),
    {
        reveal_strlit("user_input");
        reveal_strlit("conversation_history");
        reveal_strlit("user_guid");
        reveal_with_fuel(JsonView::well_formed, 2);
        lemma_history_well_formed(self.conversation_history);
        let entries = self.to_json()->Object_0;
        assert(entries[0].0.len() == 10 && entries[1].0.len() == 20 && entries[2].0.len() == 9);
    }
}

impl ChatRequest {
    /// The request as a JSON object.
    pub fn to_json(&self) -> (json: Json)
        ensures
            json@ == self@.to_json(),
    {
        let mut entries: Vec<(String, Json)> = Vec::new();
        entries.push(("user_input".to_owned(), Json::Text(self.user_input.clone())));
        entries.push(
            ("conversation_history".to_owned(), encode_history(&self.conversation_history)),
        );
        entries.push(("user_guid".to_owned(), optional_text_json(&self.user_guid)));
        proof {
            Json::lemma_object_view(entries);
            assert(Json::Object(entries)@->Object_0 =~= self@.to_json()->Object_0);
        }
        Json::Object(entries)
    }

    /// The request as the JSON text that goes on the wire.
    pub fn encode(&self) -> (text: String)
        ensures
            text@ == rendered(self@.to_json()),
    {
        proof {
            self@.lemma_to_json_well_formed();
        }
        self.to_json().render()
    }
}

} // verus!
