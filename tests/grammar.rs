use karmaspark::records::{AgentAction, Params};

fn field(a: &AgentAction, key: &str) -> Option<Option<String>> {
    a.parameters.get(key)
}

#[test]
fn plain_short_reply_is_answer() {
    let a = AgentAction::parse_from_llm_response("  The answer is 42.  \n").unwrap();
    assert_eq!(a.action_type, "answer");
    assert_eq!(field(&a, "final_answer"), Some(Some("The answer is 42.".to_string())));
    assert_eq!(field(&a, "query"), None);
}

#[test]
fn action_with_json_parameters() {
    let a = AgentAction::parse_from_llm_response(
        "ACTION: search_information\nPARAMETERS: {\"query\":\"x\"}",
    )
    .unwrap();
    assert_eq!(a.action_type, "search_information");
    assert_eq!(field(&a, "query"), Some(Some("x".to_string())));
}

#[test]
fn invalid_parameters_become_empty_object() {
    let a = AgentAction::parse_from_llm_response(
        "ACTION: search_information\nPARAMETERS: {query: not json",
    )
    .unwrap();
    assert_eq!(a.action_type, "search_information");
    assert!(matches!(&a.parameters, Params::Json(t) if t == "{}"));
    assert_eq!(field(&a, "query"), None);
}

#[test]
fn missing_parameters_become_empty_object() {
    let a = AgentAction::parse_from_llm_response("ACTION: answer").unwrap();
    assert_eq!(a.action_type, "answer");
    assert!(matches!(&a.parameters, Params::Json(t) if t == "{}"));
    assert_eq!(field(&a, "final_answer"), None);
}

#[test]
fn long_plain_reply_is_no_action() {
    let long = "word ".repeat(100);
    assert_eq!(long.len(), 500);
    assert!(AgentAction::parse_from_llm_response(&long).is_none());
    let shorter = "word ".repeat(99);
    assert!(AgentAction::parse_from_llm_response(&shorter).is_some());
}

#[test]
fn parameters_without_action_is_no_action() {
    assert!(AgentAction::parse_from_llm_response("PARAMETERS: {\"a\": 1}").is_none());
}

#[test]
fn action_name_is_cut_at_line_and_trimmed() {
    let a = AgentAction::parse_from_llm_response(
        "Let me compute.\nACTION:   perform_calculation  \nPARAMETERS: {\"expression\": \"2+2\", \"n\": 3}\n\nThanks",
    )
    .unwrap();
    assert_eq!(a.action_type, "perform_calculation");
    assert_eq!(field(&a, "expression"), Some(Some("2+2".to_string())));
    assert_eq!(field(&a, "n"), Some(None));
}

#[test]
fn action_name_is_the_rest_of_the_marker_line() {
    let a = AgentAction::parse_from_llm_response("ACTION: first ACTION: second").unwrap();
    assert_eq!(a.action_type, "first ACTION: second");
    let b = AgentAction::parse_from_llm_response("ACTION:\nsearch_information").unwrap();
    assert_eq!(b.action_type, "");
}

#[test]
fn whitespace_of_every_kind_is_trimmed() {
    let a = AgentAction::parse_from_llm_response("\u{3000}\t ok\u{a0}\u{2028}").unwrap();
    assert_eq!(field(&a, "final_answer"), Some(Some("ok".to_string())));
}

#[test]
fn describe_prints_parameters_as_json() {
    let a = AgentAction::parse_from_llm_response(
        "ACTION: search_information\nPARAMETERS: {\"query\":\"x\"}",
    )
    .unwrap();
    assert_eq!(a.describe(), "Action: search_information\nParameters: {\n  \"query\": \"x\"\n}");
    let b = AgentAction::parse_from_llm_response("done").unwrap();
    assert_eq!(b.describe(), "Action: answer\nParameters: {\n  \"final_answer\": \"done\"\n}");
}

#[test]
fn records_get_distinct_ids() {
    let a = AgentAction::new("x".to_string(), Params::Json("{}".to_string()));
    let b = AgentAction::new("x".to_string(), Params::Json("{}".to_string()));
    assert_ne!(a.id, b.id);
}
