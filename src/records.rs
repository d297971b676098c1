//! The records of one planning session: thoughts, actions, observations, and
//! the chat messages handed to the model.

use vstd::prelude::*;
use crate::json::{field_view, json_field, json_member, json_pretty, json_pretty_pair, pretty_json, pretty_json_pair};
use crate::text::same_text;

verus! {

/// Relies on `uuid::Uuid::new_v4` rendered with `to_string`: a fresh random
/// identifier. Nothing is promised of its value.
#[verifier::external_body]
fn fresh_id() -> (r: String) {
    uuid::Uuid::new_v4().to_string()
}

/// Relies on `chrono::Utc::now` and `timestamp_millis`: the current time in
/// milliseconds since the Unix epoch. Nothing is promised of its value.
#[verifier::external_body]
fn now_millis() -> (r: i64) {
    chrono::Utc::now().timestamp_millis()
}

/// One message of a chat transcript: a role and a text.
pub struct ChatMessage {
    pub role: String,
    pub content: String,
}

impl ChatMessage {
    pub open spec fn view_pair(&self) -> (Seq<char>, Seq<char>) {
        (self.role@, self.content@)
    }
}

/// The spec view of a list of messages.
pub open spec fn messages_view(m: Seq<ChatMessage>) -> Seq<(Seq<char>, Seq<char>)> {
    m.map_values(|c: ChatMessage| c.view_pair())
}

/// The key under which an `answer` action carries its text.
pub open spec fn final_answer_key() -> Seq<char> {
    seq!['f', 'i', 'n', 'a', 'l', '_', 'a', 'n', 's', 'w', 'e', 'r']
}

/// The parameters of an action: either the implicit answer that a plain reply
/// stands for, or a JSON document written by the model.
pub enum Params {
    Answer(String),
    Json(String),
}

pub enum ParamsView {
    Answer(Seq<char>),
    Json(Seq<char>),
}

impl View for Params {
    type V = ParamsView;

    open spec fn view(&self) -> ParamsView {
        match self {
            Params::Answer(a) => ParamsView::Answer(a@),
            Params::Json(t) => ParamsView::Json(t@),
        }
    }
}

impl ParamsView {
    /// What the parameters hold under `key` (see `json_field`).
    pub open spec fn field(self, key: Seq<char>) -> Option<Option<Seq<char>>> {
        match self {
            ParamsView::Answer(a) => if key == final_answer_key() {
                Some(Some(a))
            } else {
                None
            },
            ParamsView::Json(t) => json_field(t, key),
        }
    }

    /// The parameters printed as a JSON object with indentation.
    pub open spec fn pretty(self) -> Seq<char> {
        match self {
            ParamsView::Answer(a) => json_pretty_pair(final_answer_key(), a),
            ParamsView::Json(t) => json_pretty(t),
        }
    }
}

impl Params {
    /// The member under `key`: `None` when absent, `Some(None)` when it is not
    /// a string, `Some(Some(s))` when it is the string `s`.
    pub fn get(&self, key: &str) -> (r: Option<Option<String>>)
        ensures
            field_view(r) == self@.field(key@),
    {
        match self {
            Params::Answer(a) => {
                let k = String::from_str("final_answer");
                proof {
                    reveal_strlit("final_answer");
                    assert(k@ =~= final_answer_key());
                }
                if same_text(key, k.as_str()) {
                    Some(Some(a.clone()))
                } else {
                    None
                }
            },
            Params::Json(t) => json_member(t.as_str(), key),
        }
    }

    /// The parameters printed as a JSON object with indentation.
    pub fn pretty(&self) -> (r: String)
        ensures
            r@ == self@.pretty(),
    {
        match self {
            Params::Answer(a) => {
                let k = String::from_str("final_answer");
                proof {
                    reveal_strlit("final_answer");
                    assert(k@ =~= final_answer_key());
                }
                pretty_json_pair(k.as_str(), a.as_str())
            },
            Params::Json(t) => pretty_json(t.as_str()),
        }
    }
}

/// A reasoning step of the session.
pub struct Thought {
    pub id: String,
    pub content: String,
    pub timestamp: i64,
}

impl Thought {
    pub fn new(content: String) -> (r: Thought)
        ensures
            r.content@ == content@,
    {
        Thought { id: fresh_id(), content, timestamp: now_millis() }
    }
}

/// A structured request for a tool, parsed from a reply of the model.
pub struct AgentAction {
    pub id: String,
    pub action_type: String,
    pub parameters: Params,
    pub timestamp: i64,
}

impl AgentAction {
    pub fn new(action_type: String, parameters: Params) -> (r: AgentAction)
        ensures
            r.action_type@ == action_type@,
            r.parameters@ == parameters@,
    {
        AgentAction { id: fresh_id(), action_type, parameters, timestamp: now_millis() }
    }

    /// The text that describes this action in a transcript.
    pub open spec fn describe_spec(action_type: Seq<char>, params: ParamsView) -> Seq<char> {
        "Action: "@ + action_type + "\nParameters: "@ + params.pretty()
    }

    /// The text that describes this action in a transcript: its type and its
    /// parameters printed as JSON.
    pub fn describe(&self) -> (r: String)
        ensures
            r@ == Self::describe_spec(self.action_type@, self.parameters@),
    {
        let mut r = String::from_str("Action: ");
        r.append(self.action_type.as_str());
        r.append("\nParameters: ");
        let p = self.parameters.pretty();
        r.append(p.as_str());
        r
    }
}

/// The result of executing an action, tied to that action by its id.
pub struct Observation {
    pub id: String,
    pub content: String,
    pub action_id: String,
    pub timestamp: i64,
}

impl Observation {
    pub fn new(content: String, action_id: String) -> (r: Observation)
        ensures
            r.content@ == content@,
            r.action_id@ == action_id@,
    {
        Observation { id: fresh_id(), content, action_id, timestamp: now_millis() }
    }
}

} // verus!
