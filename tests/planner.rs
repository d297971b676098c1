use karmaspark::planner::{greeting_reply, partial_answer, AgentConfig, Planner, PlanningState, Request};
use karmaspark::records::ChatMessage;

struct Call {
    system: String,
    messages: Vec<ChatMessage>,
    paced: bool,
}

fn drive(planner: &mut Planner, replies: Vec<Result<String, String>>, calls: &mut Vec<Call>) -> Result<(String, Vec<String>), String> {
    let mut replies = replies.into_iter();
    for _ in 0..200 {
        match planner.advance() {
            Request::Continue => {}
            Request::Pause => planner.on_pause(),
            Request::Model { system, messages, paced } => {
                calls.push(Call { system, messages, paced });
                planner.on_reply(replies.next().expect("a reply for every model call"));
            }
            Request::Done(outcome) => return outcome,
        }
    }
    panic!("the session did not finish");
}

fn config(max_steps: usize) -> AgentConfig {
    AgentConfig { max_steps }
}

#[test]
fn default_config_has_three_steps() {
    assert_eq!(AgentConfig::default().max_steps, 3);
}

#[test]
fn greeting_gets_canned_reply() {
    assert_eq!(greeting_reply("hi"), Some("Hello! How can I assist you today?".to_string()));
    assert_eq!(greeting_reply("HEY you"), Some("Hello! How can I assist you today?".to_string()));
    assert_eq!(greeting_reply("Hello!"), Some("Hello! How can I assist you today?".to_string()));
    assert_eq!(greeting_reply("hello world"), None);
    assert_eq!(greeting_reply("what?"), None);
}

#[test]
fn direct_answer_in_one_call() {
    let mut p = Planner::new("What is 2+2?".to_string(), &config(3));
    let mut calls = Vec::new();
    let out = drive(&mut p, vec![Ok("4".to_string())], &mut calls).unwrap();
    assert_eq!(out, ("4".to_string(), vec![]));
    assert_eq!(calls.len(), 1);
    assert!(calls[0].paced);
    assert!(calls[0].system.contains("The user has asked: \"What is 2+2?\""));
    assert_eq!(calls[0].messages.len(), 2);
    assert_eq!(calls[0].messages[0].role, "assistant");
    assert_eq!(
        calls[0].messages[0].content,
        "Thought 1: I need to help answer the user's question: \"What is 2+2?\". Let me think about this step by step."
    );
    assert_eq!(calls[0].messages[1].role, "user");
    assert!(calls[0].messages[1].content.starts_with("What is your next step?"));
    assert_eq!(p.state(), PlanningState::Finished);
    assert_eq!(
        p.thought_texts().last().unwrap(),
        "I now have the answer: 4"
    );
}

#[test]
fn search_then_answer() {
    let mut p = Planner::new("Tell me about Rust".to_string(), &config(3));
    let mut calls = Vec::new();
    let out = drive(
        &mut p,
        vec![
            Ok("ACTION: search_information\nPARAMETERS: {\"query\": \"rust language\"}".to_string()),
            Ok("Rust is a systems language.".to_string()),
            Ok("ACTION: answer\nPARAMETERS: {\"final_answer\": \"Rust is fast.\"}".to_string()),
        ],
        &mut calls,
    )
    .unwrap();
    assert_eq!(out, ("Rust is fast.".to_string(), vec!["Rust is a systems language.".to_string()]));
    assert_eq!(calls.len(), 3);
    assert_eq!(
        calls[1].system,
        "You are a search engine. Provide a brief, factual answer to this query: \"rust language\""
    );
    assert_eq!(calls[1].messages.len(), 1);
    assert_eq!(calls[1].messages[0].role, "user");
    assert_eq!(calls[1].messages[0].content, "rust language");
    assert!(calls[1].paced);
    let transcript: Vec<String> = calls[2].messages.iter().map(|m| m.content.clone()).collect();
    assert_eq!(transcript[1], "Thought 2: I need to search_information");
    assert_eq!(
        transcript[2],
        "Action 1: Action: search_information\nParameters: {\n  \"query\": \"rust language\"\n}"
    );
    assert_eq!(transcript[3], "Observation 1: Rust is a systems language.");
    assert_eq!(calls[2].messages[3].role, "user");
    assert_eq!(p.current_step(), 1);
}

#[test]
fn answer_action_without_final_answer_keeps_thinking() {
    let mut p = Planner::new("Question here".to_string(), &config(3));
    let mut calls = Vec::new();
    let out = drive(
        &mut p,
        vec![Ok("ACTION: answer\nPARAMETERS: {\"text\": \"x\"}".to_string()), Ok("Fine.".to_string())],
        &mut calls,
    )
    .unwrap();
    assert_eq!(out.0, "Fine.");
    assert_eq!(p.thought_texts()[1], "I need to provide a clear answer");
}

#[test]
fn six_thinking_passes_without_action_finish() {
    let mut p = Planner::new("Explain everything".to_string(), &config(3));
    let mut calls = Vec::new();
    let ramble = "hmm ".repeat(150);
    let mut replies: Vec<Result<String, String>> = (0..5).map(|_| Ok(ramble.clone())).collect();
    replies.push(Ok("Everything is connected.".to_string()));
    let out = drive(&mut p, replies, &mut calls).unwrap();
    assert_eq!(calls.len(), 6);
    assert!(calls[..5].iter().all(|c| c.paced));
    assert!(!calls[5].paced);
    assert!(calls[5].messages.is_empty());
    assert_eq!(
        calls[5].system,
        "You are a helpful assistant. Provide a direct, concise answer to this question: \"Explain everything\""
    );
    assert_eq!(
        out,
        (
            "I've thought about your question \"Explain everything\" and here's my answer:\n\nEverything is connected."
                .to_string(),
            vec![]
        )
    );
    assert_eq!(p.thinking_streak(), 6);
}

#[test]
fn direct_fallback_apologises_on_failure() {
    let mut p = Planner::new("Explain everything".to_string(), &config(3));
    let mut calls = Vec::new();
    let ramble = "hmm ".repeat(150);
    let mut replies: Vec<Result<String, String>> = (0..5).map(|_| Ok(ramble.clone())).collect();
    replies.push(Err("down".to_string()));
    let out = drive(&mut p, replies, &mut calls).unwrap();
    assert_eq!(
        out.0,
        "I've thought about your question \"Explain everything\" and here's my answer:\n\nI'm not able to provide a complete answer at this time. Please try asking your question differently."
    );
}

#[test]
fn model_failure_without_observations_fails() {
    let mut p = Planner::new("Compute x".to_string(), &config(3));
    let mut calls = Vec::new();
    let out = drive(&mut p, vec![Err("boom".to_string())], &mut calls);
    assert_eq!(out, Err("Failed to get LLM response: boom".to_string()));
}

#[test]
fn model_failure_after_observation_gives_partial_answer() {
    let mut p = Planner::new("Compute it".to_string(), &config(3));
    let mut calls = Vec::new();
    let out = drive(
        &mut p,
        vec![
            Ok("ACTION: perform_calculation\nPARAMETERS: {\"expression\": \"6*7\"}".to_string()),
            Ok("42".to_string()),
            Err("overloaded".to_string()),
        ],
        &mut calls,
    )
    .unwrap();
    assert_eq!(
        out,
        (
            "I encountered an issue while processing your question about 'Compute it', but here's what I found so far:\n\nFinding 1: 42\n\n\nI apologize that I couldn't complete the full analysis due to technical limitations."
                .to_string(),
            vec!["42".to_string()]
        )
    );
    assert_eq!(
        calls[1].system,
        "You are a calculator. Compute the result of this expression: \"6*7\". Return only the numeric result without explanation."
    );
}

#[test]
fn unsupported_action_is_observed_as_error() {
    let mut p = Planner::new("Fly me".to_string(), &config(1));
    let mut calls = Vec::new();
    let out = drive(
        &mut p,
        vec![Ok("ACTION: fly\nPARAMETERS: {}".to_string()), Ok("Cannot fly.".to_string())],
        &mut calls,
    )
    .unwrap();
    assert_eq!(out, ("Cannot fly.".to_string(), vec!["Error: Unsupported action: fly".to_string()]));
    assert_eq!(calls.len(), 2);
    assert!(!calls[1].paced);
    assert!(calls[1].system.starts_with("You are KarmaSpark, an intelligent assistant. Based on"));
    assert_eq!(
        calls[1].messages.last().unwrap().content,
        "Based on all the information you've gathered, what's your final answer to my question?"
    );
}

#[test]
fn exhausted_steps_fall_back_when_summary_fails() {
    let mut p = Planner::new("Look it up".to_string(), &config(1));
    let mut calls = Vec::new();
    let out = drive(
        &mut p,
        vec![
            Ok("ACTION: search_information\nPARAMETERS: {\"query\": \"\"}".to_string()),
            Err("down".to_string()),
        ],
        &mut calls,
    )
    .unwrap();
    assert_eq!(
        out,
        (
            "I wasn't able to find a complete answer to your question in the time available.".to_string(),
            vec!["No search query provided.".to_string()]
        )
    );
}

#[test]
fn failed_tool_call_is_observed() {
    let mut p = Planner::new("Look it up".to_string(), &config(1));
    let mut calls = Vec::new();
    let out = drive(
        &mut p,
        vec![
            Ok("ACTION: search_information\nPARAMETERS: {\"query\": \"q\"}".to_string()),
            Err("timeout".to_string()),
            Ok("Summary.".to_string()),
        ],
        &mut calls,
    )
    .unwrap();
    assert_eq!(out, ("Summary.".to_string(), vec!["Error: Search error: timeout".to_string()]));
}

#[test]
fn missing_query_is_observed() {
    let mut p = Planner::new("Look it up".to_string(), &config(1));
    let mut calls = Vec::new();
    let out = drive(
        &mut p,
        vec![Ok("ACTION: search_information\nPARAMETERS: {\"q\": 1}".to_string()), Ok("S".to_string())],
        &mut calls,
    )
    .unwrap();
    assert_eq!(out.1, vec!["Error: No search query provided".to_string()]);
}

#[test]
fn partial_answer_shape() {
    assert_eq!(
        partial_answer("q", &vec!["a".to_string(), "b".to_string()]),
        "I encountered an issue while processing your question about 'q', but here's what I found so far:\n\nFinding 1: a\n\nFinding 2: b\n\n\nI apologize that I couldn't complete the full analysis due to technical limitations."
    );
}

#[test]
fn six_passes_with_observations_give_partial_answer() {
    let mut p = Planner::new("Find it".to_string(), &config(3));
    let mut calls = Vec::new();
    let ramble = "hmm ".repeat(150);
    let mut replies: Vec<Result<String, String>> = vec![
        Ok("ACTION: search_information\nPARAMETERS: {\"query\": \"it\"}".to_string()),
        Ok("It is here.".to_string()),
    ];
    replies.extend((0..5).map(|_| Ok(ramble.clone())));
    let out = drive(&mut p, replies, &mut calls).unwrap();
    assert_eq!(calls.len(), 7);
    assert_eq!(out, (partial_answer("Find it", &vec!["It is here.".to_string()]), vec!["It is here.".to_string()]));
    assert_eq!(p.thinking_streak(), 6);
    assert_eq!(p.current_step(), 1);
}

#[test]
fn greeting_session_makes_no_model_call() {
    let mut p = Planner::new("hi".to_string(), &config(3));
    let mut calls = Vec::new();
    let out = drive(&mut p, vec![], &mut calls).unwrap();
    assert_eq!(out, ("Hello! How can I assist you today?".to_string(), vec![]));
    assert!(calls.is_empty());
    assert_eq!(p.state(), PlanningState::Finished);
}

#[test]
fn answers_without_final_answer_still_finish() {
    let mut p = Planner::new("Tell me something".to_string(), &config(1));
    let mut calls = Vec::new();
    let mut replies: Vec<Result<String, String>> =
        (0..5).map(|_| Ok("ACTION: answer\nPARAMETERS: {}".to_string())).collect();
    replies.push(Ok("Something.".to_string()));
    let out = drive(&mut p, replies, &mut calls).unwrap();
    assert_eq!(calls.len(), 6);
    assert!(!calls[5].paced);
    assert!(calls[5].messages.is_empty());
    assert_eq!(
        out,
        (
            "I've thought about your question \"Tell me something\" and here's my answer:\n\nSomething.".to_string(),
            vec![]
        )
    );
    assert_eq!(p.thought_texts()[1], "I need to provide a clear answer");
    assert_eq!(p.thinking_streak(), 6);
}

#[test]
fn greeting_length_counts_bytes() {
    assert_eq!(greeting_reply("hi ééé"), Some("Hello! How can I assist you today?".to_string()));
    assert_eq!("hi ééééé".chars().count(), 8);
    assert_eq!(greeting_reply("hi ééééé"), None);
}
