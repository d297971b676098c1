//! How an action is carried out: both known tools are answered by the model
//! under a tool-specific prompt, so executing an action means preparing that
//! prompt, and reading the model's reply back as the action's result.

use vstd::prelude::*;
use crate::records::{messages_view, AgentAction, ChatMessage, ParamsView};
use crate::text::same_text;

verus! {

/// The tools the model may ask for.
#[derive(PartialEq, Eq, Structural, Clone, Copy, Debug)]
pub enum Tool {
    Search,
    Calculation,
}

/// Why an action produced no result.
pub enum ActionError {
    /// `search_information` without a string `query`.
    MissingQuery,
    /// `perform_calculation` without a string `expression`.
    MissingExpression,
    /// An action type that no tool serves.
    Unsupported(String),
    /// The model failed while acting as the search engine.
    Search(String),
    /// The model failed while acting as the calculator.
    Calculation(String),
}

/// What executing an action needs: either its result is already known, or the
/// model must be asked with the given prompt and messages.
pub enum ToolCall {
    Reply(String),
    Ask { tool: Tool, system: String, messages: Vec<ChatMessage> },
}

pub open spec fn search_type() -> Seq<char> {
    "search_information"@
}

pub open spec fn calculation_type() -> Seq<char> {
    "perform_calculation"@
}

pub open spec fn search_prompt(q: Seq<char>) -> Seq<char> {
    "You are a search engine. Provide a brief, factual answer to this query: \""@ + q + "\""@
}

pub open spec fn calculation_prompt(e: Seq<char>) -> Seq<char> {
    "You are a calculator. Compute the result of this expression: \""@ + e
        + "\". Return only the numeric result without explanation."@
}

/// The message of an action error, as an observation shows it.
pub open spec fn action_error_text(e: ActionError) -> Seq<char> {
    match e {
        ActionError::MissingQuery => "No search query provided"@,
        ActionError::MissingExpression => "No calculation expression provided"@,
        ActionError::Unsupported(n) => "Unsupported action: "@ + n@,
        ActionError::Search(m) => "Search error: "@ + m@,
        ActionError::Calculation(m) => "Calculation error: "@ + m@,
    }
}

/// What executing an action of type `t` with parameters `p` needs, or why it
/// cannot run.
pub open spec fn prepared(r: Result<ToolCall, ActionError>, t: Seq<char>, p: ParamsView) -> bool {
    if t == search_type() {
        match p.field("query"@) {
            Some(Some(q)) => if q.len() == 0 {
                r matches Ok(ToolCall::Reply(s)) && s@ == "No search query provided."@
            } else {
                r matches Ok(ToolCall::Ask { tool, system, messages }) && tool == Tool::Search
                    && system@ == search_prompt(q) && messages_view(messages@) == seq![("user"@, q)]
            },
            _ => r matches Err(ActionError::MissingQuery),
        }
    } else if t == calculation_type() {
        match p.field("expression"@) {
            Some(Some(e)) => if e.len() == 0 {
                r matches Ok(ToolCall::Reply(s)) && s@ == "No calculation expression provided."@
            } else {
                r matches Ok(ToolCall::Ask { tool, system, messages }) && tool == Tool::Calculation
                    && system@ == calculation_prompt(e) && messages_view(messages@) == seq![(
                    "user"@,
                    e,
                )]
            },
            _ => r matches Err(ActionError::MissingExpression),
        }
    } else {
        r matches Err(ActionError::Unsupported(n)) && n@ == t
    }
}

/// How the planning session carries out an action: it records an observation
/// at once, or it asks the model with a tool's prompt.
pub enum Execution {
    Observe(Seq<char>),
    Ask(Tool, Seq<char>, Seq<(Seq<char>, Seq<char>)>),
}

/// The observation that an action error leaves.
pub open spec fn error_observation(e: ActionError) -> Seq<char> {
    "Error: "@ + action_error_text(e)
}

/// How an action of type `t` with parameters `p` is carried out.
pub open spec fn execution(t: Seq<char>, p: ParamsView) -> Execution {
    if t == search_type() {
        match p.field("query"@) {
            Some(Some(q)) => if q.len() == 0 {
                Execution::Observe("No search query provided."@)
            } else {
                Execution::Ask(Tool::Search, search_prompt(q), seq![("user"@, q)])
            },
            _ => Execution::Observe(error_observation(ActionError::MissingQuery)),
        }
    } else if t == calculation_type() {
        match p.field("expression"@) {
            Some(Some(e)) => if e.len() == 0 {
                Execution::Observe("No calculation expression provided."@)
            } else {
                Execution::Ask(Tool::Calculation, calculation_prompt(e), seq![("user"@, e)])
            },
            _ => Execution::Observe(error_observation(ActionError::MissingExpression)),
        }
    } else {
        Execution::Observe("Error: "@ + ("Unsupported action: "@ + t))
    }
}

/// The observation that a tool's reply from the model leaves.
pub open spec fn tool_observation(tool: Tool, reply: Result<Seq<char>, Seq<char>>) -> Seq<char> {
    match reply {
        Ok(t) => t,
        Err(m) => match tool {
            Tool::Search => "Error: "@ + ("Search error: "@ + m),
            Tool::Calculation => "Error: "@ + ("Calculation error: "@ + m),
        },
    }
}

impl ActionError {
    /// The message of this error.
    pub fn message(&self) -> (r: String)
        ensures
            r@ == action_error_text(*self),
    {
        match self {
            ActionError::MissingQuery => String::from_str("No search query provided"),
            ActionError::MissingExpression => String::from_str("No calculation expression provided"),
            ActionError::Unsupported(n) => {
                let mut r = String::from_str("Unsupported action: ");
                r.append(n.as_str());
                r
            },
            ActionError::Search(m) => {
                let mut r = String::from_str("Search error: ");
                r.append(m.as_str());
                r
            },
            ActionError::Calculation(m) => {
                let mut r = String::from_str("Calculation error: ");
                r.append(m.as_str());
                r
            },
        }
    }
}

fn ask_user(text: &String) -> (r: Vec<ChatMessage>)
    ensures
        messages_view(r@) == seq![("user"@, text@)],
{
    let r = vec![ChatMessage { role: String::from_str("user"), content: text.clone() }];
    assert(messages_view(r@) =~= seq![("user"@, text@)]);
    r
}

/// Prepares the execution of an action: a search needs a string `query` and a
/// calculation a string `expression`; an empty one is answered at once, any
/// other is put to the model under the tool's prompt.
pub fn prepare_action(action: &AgentAction) -> (r: Result<ToolCall, ActionError>)
    ensures
        prepared(r, action.action_type@, action.parameters@),
        match r {
            Ok(ToolCall::Reply(s)) => execution(action.action_type@, action.parameters@)
                == Execution::Observe(s@),
            Ok(ToolCall::Ask { tool, system, messages }) => execution(
                action.action_type@,
                action.parameters@,
            ) == Execution::Ask(tool, system@, messages_view(messages@)),
            Err(e) => execution(action.action_type@, action.parameters@) == Execution::Observe(
                error_observation(e),
            ),
        },
{
    if same_text(action.action_type.as_str(), "search_information") {
        match action.parameters.get("query") {
            Some(Some(q)) => {
                if q.unicode_len() == 0 {
                    Ok(ToolCall::Reply(String::from_str("No search query provided.")))
                } else {
                    let mut system = String::from_str(
                        "You are a search engine. Provide a brief, factual answer to this query: \"",
                    );
                    system.append(q.as_str());
                    system.append("\"");
                    Ok(ToolCall::Ask { tool: Tool::Search, system, messages: ask_user(&q) })
                }
            },
            _ => Err(ActionError::MissingQuery),
        }
    } else if same_text(action.action_type.as_str(), "perform_calculation") {
        match action.parameters.get("expression") {
            Some(Some(e)) => {
                if e.unicode_len() == 0 {
                    Ok(ToolCall::Reply(String::from_str("No calculation expression provided.")))
                } else {
                    let mut system = String::from_str(
                        "You are a calculator. Compute the result of this expression: \"",
                    );
                    system.append(e.as_str());
                    system.append("\". Return only the numeric result without explanation.");
                    Ok(ToolCall::Ask { tool: Tool::Calculation, system, messages: ask_user(&e) })
                }
            },
            _ => Err(ActionError::MissingExpression),
        }
    } else {
        Err(ActionError::Unsupported(action.action_type.clone()))
    }
}

/// The result of a tool whose reply came from the model: the reply itself, or
/// the tool's error carrying the model's failure.
pub fn finish_action(tool: Tool, reply: Result<String, String>) -> (r: Result<String, ActionError>)
    ensures
        match reply {
            Ok(t) => r matches Ok(s) && s@ == t@,
            Err(m) => match tool {
                Tool::Search => r matches Err(ActionError::Search(e)) && e@ == m@,
                Tool::Calculation => r matches Err(ActionError::Calculation(e)) && e@ == m@,
            },
        },
{
    match reply {
        Ok(t) => Ok(t),
        Err(m) => match tool {
            Tool::Search => Err(ActionError::Search(m)),
            Tool::Calculation => Err(ActionError::Calculation(m)),
        },
    }
}

} // verus!
