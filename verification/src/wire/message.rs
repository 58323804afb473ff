//! One turn of a conversation, and a conversation as a whole.

use super::fields::{
    lemma_text_of_canonical, not_an_array, not_an_object, optional_text, optional_text_json, outcome_view,
    read_optional_text, read_required_text, required_text, text_or_null, text_view,
};
use crate::json::laws::lemma_lookup_found;
use crate::json::{Json, JsonView};
use vstd::prelude::*;

verus! {

/// One turn of a conversation.
#[derive(Clone, Debug, PartialEq, Eq)]
pub struct ChatMessage {
    pub role: String,
    pub content: String,
    pub timestamp: Option<String>,
}

/// The mathematical content of a [`ChatMessage`].
pub struct ChatMessageView {
    pub role: Seq<char>,
    pub content: Seq<char>,
    pub timestamp: Option<Seq<char>>,
}

impl View for ChatMessage {
    type V = ChatMessageView;

    open spec fn view(&self) -> ChatMessageView {
        ChatMessageView {
            role: self.role@,
            content: self.content@,
            timestamp: text_view(self.timestamp),
        }
    }
}

impl ChatMessageView {
    /// The JSON object that stands for the message.
    pub open spec fn to_json(self) -> JsonView {
        JsonView::Object(
            seq![
                ("role"@, JsonView::Text(self.role)),
                ("content"@, JsonView::Text(self.content)),
                ("timestamp"@, text_or_null(self.timestamp)),
            ],
        )
    }

    /// The message that a JSON value stands for, or the cause for which it
    /// stands for none. The value must be an object whose `role` and
    /// `content` are strings; `timestamp` may be absent, `null` or a string.
    /// Fields are looked at in this order, and the first mismatch is the one
    /// reported; entries under other keys are passed over.
    pub open spec fn from_json(json: JsonView) -> Result<ChatMessageView, Seq<char>> {
        if !(json is Object) {
            Err(not_an_object())
        } else {
            match required_text(json, "role"@) {
                Err(cause) => Err(cause),
                Ok(role) => match required_text(json, "content"@) {
                    Err(cause) => Err(cause),
                    Ok(content) => match optional_text(json, "timestamp"@) {
                        Err(cause) => Err(cause),
                        Ok(timestamp) => Ok(ChatMessageView { role, content, timestamp }),
                    },
                },
            }
        }
    }

    /// A message is read from the canonical form of a value as it is read
    /// from the value.
    pub proof fn lemma_from_json_of_canonical(json: JsonView)
        ensures
            ChatMessageView::from_json(json.canonical()) == ChatMessageView::from_json(json),
    {
        lemma_text_of_canonical(json, "role"@);
        lemma_text_of_canonical(json, "content"@);
        lemma_text_of_canonical(json, "timestamp"@);
    }

    /// The object of a message is well formed.
    pub proof fn lemma_to_json_well_formed(self)
        ensures
            self.to_json().well_formed(),
    {
        reveal_strlit("role");
        reveal_strlit("content");
        reveal_strlit("timestamp");
        reveal_with_fuel(JsonView::well_formed, 2);
        let entries = self.to_json()->Object_0;
        assert(entries[0].0.len() == 4 && entries[1].0.len() == 7 && entries[2].0.len() == 9);
    }

    /// Reading the JSON object of a message gives the message back.
    pub proof fn lemma_round_trip(self)
        ensures
            ChatMessageView::from_json(self.to_json()) == Ok::<ChatMessageView, Seq<char>>(self),
    {
        reveal_strlit("role");
        reveal_strlit("content");
        reveal_strlit("timestamp");
        let entries = self.to_json()->Object_0;
        assert(entries[0].0.len() == 4 && entries[1].0.len() == 7 && entries[2].0.len() == 9);
        lemma_lookup_found(entries, "role"@, 0);
        lemma_lookup_found(entries, "content"@, 1);
        lemma_lookup_found(entries, "timestamp"@, 2);
    }
}

impl ChatMessage {
    /// The message as a JSON object.
    pub fn to_json(&self) -> (json: Json)
        ensures
            json@ == self@.to_json(),
    {
        let mut entries: Vec<(String, Json)> = Vec::new();
        entries.push(("role".to_owned(), Json::Text(self.role.clone())));
        entries.push(("content".to_owned(), Json::Text(self.content.clone())));
        entries.push(("timestamp".to_owned(), optional_text_json(&self.timestamp)));
        proof {
            Json::lemma_object_view(entries);
            assert(Json::Object(entries)@->Object_0 =~= self@.to_json()->Object_0);
        }
        Json::Object(entries)
    }

    /// Reads a message from a JSON value.
    pub fn from_json(json: &Json) -> (r: Result<ChatMessage, String>)
        ensures
            outcome_view(r) == ChatMessageView::from_json(json@),
    {
        match json {
            Json::Object(_) => {},
            _ => {
                return Err("expected a JSON object".to_owned());
            },
        }
        let role = match read_required_text(json, "role") {
            Ok(role) => role,
            Err(cause) => {
                return Err(cause);
            },
        };
        let content = match read_required_text(json, "content") {
            Ok(content) => content,
            Err(cause) => {
                return Err(cause);
            },
        };
        let timestamp = match read_optional_text(json, "timestamp") {
            Ok(timestamp) => timestamp,
            Err(cause) => {
                return Err(cause);
            },
        };
        Ok(ChatMessage { role, content, timestamp })
    }
}

/// The contents of the messages of a conversation, in order.
pub open spec fn history_view(history: Seq<ChatMessage>) -> Seq<ChatMessageView> {
    history.map_values(|message: ChatMessage| message@)
}

/// The JSON array that stands for a conversation: its messages in order.
pub open spec fn history_to_json(history: Seq<ChatMessageView>) -> JsonView {
    JsonView::Array(history.map_values(|message: ChatMessageView| message.to_json()))
}

/// The messages that a sequence of JSON values stands for, in order; where
/// some value stands for no message, the cause reported for the first such
/// value.
pub open spec fn messages_from_json(items: Seq<JsonView>) -> Result<
    Seq<ChatMessageView>,
    Seq<char>,
>
    decreases items.len(),
{
    if items.len() == 0 {
        Ok(Seq::empty())
    } else {
        match messages_from_json(items.drop_last()) {
            Err(cause) => Err(cause),
            Ok(messages) => match ChatMessageView::from_json(items.last()) {
                Err(cause) => Err(cause),
                Ok(message) => Ok(messages.push(message)),
            },
        }
    }
}

/// The conversation that a JSON value stands for: the messages of an array.
pub open spec fn history_from_json(json: JsonView) -> Result<Seq<ChatMessageView>, Seq<char>> {
    match json {
        JsonView::Array(items) => messages_from_json(items),
        _ => Err(not_an_array()),
    }
}

/// A decoded conversation or the cause of a mismatch, by its content.
pub open spec fn history_outcome_view(r: Result<Vec<ChatMessage>, String>) -> Result<
    Seq<ChatMessageView>,
    Seq<char>,
> {
    match r {
        Ok(history) => Ok(history_view(history@)),
        Err(cause) => Err(cause@),
    }
}

/// The conversation as a JSON array.
pub fn encode_history(history: &Vec<ChatMessage>) -> (json: Json)
    ensures
        json@ == history_to_json(history_view(history@)),
{
    let mut items: Vec<Json> = Vec::new();
    let mut i: usize = 0;
    while i < history.len()
        invariant
            i <= history.len(),
            items.len() == i,
            forall|k: int| 0 <= k < i ==> (#[trigger] items[k])@ == history[k]@.to_json(),
        decreases history.len() - i,
    {
        items.push(history[i].to_json());
        i += 1;
    }
    proof {
        Json::lemma_array_view(items);
        assert(Json::Array(items)@->Array_0 =~= history_to_json(history_view(history@))->Array_0);
    }
    Json::Array(items)
}

/// Reads a conversation from a JSON value.
pub fn decode_history(json: &Json) -> (r: Result<Vec<ChatMessage>, String>)
    ensures
        history_outcome_view(r) == history_from_json(json@),
{
    match json {
        Json::Array(items) => {
            proof {
                Json::lemma_array_view(*items);
            }
            let ghost views = json@->Array_0;
            let mut history: Vec<ChatMessage> = Vec::new();
            let mut i: usize = 0;
            proof {
                assert(history_view(history@) =~= Seq::empty());
            }
            while i < items.len()
                invariant
                    i <= items.len(),
                    json@ == JsonView::Array(views),
                    views.len() == items.len(),
                    forall|k: int| 0 <= k < items.len() ==> #[trigger] views[k] == items[k]@,
                    messages_from_json(views.take(i as int)) == Ok::<
                        Seq<ChatMessageView>,
                        Seq<char>,
                    >(history_view(history@)),
                decreases items.len() - i,
            {
                let ghost before = history_view(history@);
                proof {
                    assert(views.take(i + 1).drop_last() =~= views.take(i as int));
                }
                match ChatMessage::from_json(&items[i]) {
                    Ok(message) => {
                        history.push(message);
                        proof {
                            assert(history_view(history@) =~= before.push(message@));
                        }
                    },
                    Err(cause) => {
                        proof {
                            lemma_first_mismatch(views, i + 1);
                        }
                        return Err(cause);
                    },
                }
                i += 1;
            }
            proof {
                assert(views.take(i as int) =~= views);
            }
            Ok(history)
        },
        _ => Err("expected a JSON array".to_owned()),
    }
}

/// The array of a conversation is well formed.
pub proof fn lemma_history_well_formed(history: Seq<ChatMessageView>)
    ensures
        history_to_json(history).well_formed(),
{
    let items = history_to_json(history)->Array_0;
    assert forall|k: int| 0 <= k < items.len() implies (#[trigger] items[k]).well_formed() by {
        history[k].lemma_to_json_well_formed();
    }
}

/// Reading the JSON array of a conversation gives the conversation back: the
/// same messages in the same order.
pub proof fn lemma_history_round_trip(history: Seq<ChatMessageView>)
    ensures
        history_from_json(history_to_json(history)) == Ok::<Seq<ChatMessageView>, Seq<char>>(
            history,
        ),
    decreases history.len(),
{
    let items = history.map_values(|message: ChatMessageView| message.to_json());
    if history.len() == 0 {
        assert(history =~= Seq::empty());
    } else {
        let init = history.drop_last();
        lemma_history_round_trip(init);
        history.last().lemma_round_trip();
        assert(items.drop_last() =~= init.map_values(|message: ChatMessageView| message.to_json()));
        assert(init.push(history.last()) =~= history);
    }
}

/// A mismatch among the first `n` values is a mismatch of the whole
/// sequence, with the same cause.
proof fn lemma_first_mismatch(items: Seq<JsonView>, n: int)
    requires
        0 <= n <= items.len(),
        messages_from_json(items.take(n)) is Err,
    ensures
        messages_from_json(items) == messages_from_json(items.take(n)),
    decreases items.len() - n,
{
    if n < items.len() {
        assert(items.take(n + 1).drop_last() =~= items.take(n));
        lemma_first_mismatch(items, n + 1);
    } else {
        assert(items.take(n) =~= items);
    }
}

} // verus!
