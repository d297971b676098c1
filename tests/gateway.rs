use karmaspark::gateway::{first_item, first_reply, is_rate_limit, moderation_verdict, request_messages, GatewayError, Retry, RetryDecision, Role};
use karmaspark::records::ChatMessage;

fn msg(role: &str, content: &str) -> ChatMessage {
    ChatMessage { role: role.to_string(), content: content.to_string() }
}

#[test]
fn history_roles_are_mapped() {
    let m = request_messages("sys", &vec![msg("user", "a"), msg("assistant", "b")]).ok().unwrap();
    assert_eq!(m.len(), 3);
    assert!(m[0].role == Role::System && m[0].content == "sys");
    assert!(m[1].role == Role::User && m[1].content == "a");
    assert!(m[2].role == Role::Assistant && m[2].content == "b");
}

#[test]
fn unsupported_role_is_refused() {
    let r = request_messages("sys", &vec![msg("user", "a"), msg("tool", "b"), msg("system", "c")]);
    match r {
        Err(GatewayError::UnsupportedRole(role)) => assert_eq!(role, "tool"),
        _ => panic!("expected an unsupported role"),
    }
    assert_eq!(GatewayError::UnsupportedRole("tool".to_string()).message(), "Unsupported message role: tool");
}

#[test]
fn rate_limit_is_retried_with_doubling_delay() {
    let mut retry = Retry::new();
    assert!(matches!(retry.on_failure("Requests rate limit exceeded"), RetryDecision::Wait(1000)));
    assert!(matches!(retry.on_failure("rate limit"), RetryDecision::Wait(2000)));
    match retry.on_failure("rate limit") {
        RetryDecision::Fail(e) => {
            assert!(matches!(e, GatewayError::RateLimitExceeded));
            assert_eq!(e.message(), "Rate limit exceeded. Please try again in a few minutes.");
        }
        _ => panic!("expected to give up"),
    }
}

#[test]
fn other_errors_are_not_retried() {
    let mut retry = Retry::new();
    assert!(matches!(retry.on_failure("rate limit"), RetryDecision::Wait(1000)));
    match retry.on_failure("bad request") {
        RetryDecision::Fail(e) => {
            assert_eq!(e.message(), "API error after 1 retries: bad request");
        }
        _ => panic!("expected to give up"),
    }
}

#[test]
fn rate_limit_detection() {
    assert!(is_rate_limit("429: rate limit reached"));
    assert!(!is_rate_limit("Rate Limit"));
    assert!(!is_rate_limit("internal error"));
}

#[test]
fn first_choice_of_response() {
    assert_eq!(first_reply(vec![Some("a".to_string()), Some("b".to_string())]).ok(), Some("a".to_string()));
    assert_eq!(first_reply(vec![None]).ok(), Some(String::new()));
    let empty = first_reply(vec![]);
    assert!(matches!(empty, Err(GatewayError::EmptyResponse)));
    assert_eq!(GatewayError::EmptyResponse.message(), "No choices in response");
    assert_eq!(first_item(vec![vec![0.5f32], vec![1.0]]).ok(), Some(vec![0.5f32]));
}

#[test]
fn moderation_flag() {
    assert_eq!(moderation_verdict("FLAGGED: insults".to_string()), (true, "FLAGGED: insults".to_string()));
    assert_eq!(moderation_verdict("SAFE".to_string()), (false, "SAFE".to_string()));
    assert_eq!(moderation_verdict("FLAG".to_string()), (false, "FLAG".to_string()));
}
