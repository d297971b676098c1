use karmaspark::executor::{finish_action, prepare_action, ActionError, Tool, ToolCall};
use karmaspark::records::{AgentAction, Params};

fn action(t: &str, json: &str) -> AgentAction {
    AgentAction::new(t.to_string(), Params::Json(json.to_string()))
}

#[test]
fn empty_query_is_answered_at_once() {
    match prepare_action(&action("search_information", "{\"query\": \"\"}")) {
        Ok(ToolCall::Reply(t)) => assert_eq!(t, "No search query provided."),
        _ => panic!("expected an immediate reply"),
    }
    match prepare_action(&action("perform_calculation", "{\"expression\": \"\"}")) {
        Ok(ToolCall::Reply(t)) => assert_eq!(t, "No calculation expression provided."),
        _ => panic!("expected an immediate reply"),
    }
}

#[test]
fn missing_or_unknown_is_an_error() {
    match prepare_action(&action("search_information", "{}")) {
        Err(e) => {
            assert!(matches!(e, ActionError::MissingQuery));
            assert_eq!(e.message(), "No search query provided");
        }
        _ => panic!("expected an error"),
    }
    match prepare_action(&action("perform_calculation", "{\"expression\": 4}")) {
        Err(e) => assert_eq!(e.message(), "No calculation expression provided"),
        _ => panic!("expected an error"),
    }
    match prepare_action(&action("dance", "{}")) {
        Err(e) => assert_eq!(e.message(), "Unsupported action: dance"),
        _ => panic!("expected an error"),
    }
}

#[test]
fn calculation_prompt() {
    match prepare_action(&action("perform_calculation", "{\"expression\": \"1+1\"}")) {
        Ok(ToolCall::Ask { tool, system, messages }) => {
            assert!(tool == Tool::Calculation);
            assert_eq!(system, "You are a calculator. Compute the result of this expression: \"1+1\". Return only the numeric result without explanation.");
            assert_eq!(messages.len(), 1);
            assert_eq!(messages[0].content, "1+1");
        }
        _ => panic!("expected a model call"),
    }
}

#[test]
fn tool_failure_names_the_tool() {
    match finish_action(Tool::Calculation, Err("x".to_string())) {
        Err(e) => assert_eq!(e.message(), "Calculation error: x"),
        _ => panic!("expected an error"),
    }
    assert_eq!(finish_action(Tool::Search, Ok("r".to_string())).ok(), Some("r".to_string()));
}
