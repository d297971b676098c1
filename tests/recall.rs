use karmaspark::config::{choose_api_key, AgentConfig};
use karmaspark::recall::{command_response, memory_action, recent_reply, store_reply, MemoryAction, Recall, RecallRequest};

fn lines(v: &[&str]) -> Vec<String> {
    v.iter().map(|s| s.to_string()).collect()
}

fn outcome(r: &Recall) -> Result<String, String> {
    match r.request() {
        RecallRequest::Done(o) => o,
        _ => panic!("the recall is not done"),
    }
}

#[test]
fn failed_embedding_falls_back_to_recency() {
    let recent = lines(&["- [2024-01-01 10:00]: bought milk", "- [2024-01-01 09:00]: woke up"]);
    let mut r = Recall::new("morning".to_string());
    assert!(matches!(r.request(), RecallRequest::Embed));
    r.on_embedding(false);
    assert!(matches!(r.request(), RecallRequest::Recent));
    r.on_recent(Ok(recent.clone()));
    let direct = recent_reply("morning", Ok(recent));
    assert_eq!(outcome(&r), direct);
    assert_eq!(
        direct,
        Ok("Here's what I remember about 'morning':\n\n- [2024-01-01 10:00]: bought milk\n- [2024-01-01 09:00]: woke up".to_string())
    );
}

#[test]
fn similar_memories_are_used_first() {
    let mut r = Recall::new("milk".to_string());
    r.on_embedding(true);
    assert!(matches!(r.request(), RecallRequest::Search));
    r.on_search(Ok(lines(&["- [x] (similarity: 0.91): bought milk"])));
    assert_eq!(
        outcome(&r),
        Ok("Here's what I remember about 'milk':\n\n- [x] (similarity: 0.91): bought milk".to_string())
    );
}

#[test]
fn empty_or_failed_search_falls_back_to_recency() {
    let mut r = Recall::new("milk".to_string());
    r.on_embedding(true);
    r.on_search(Ok(vec![]));
    assert!(matches!(r.request(), RecallRequest::Recent));
    r.on_recent(Ok(vec![]));
    assert_eq!(outcome(&r), Ok("I don't have any relevant memories for that query.".to_string()));

    let mut r = Recall::new("milk".to_string());
    r.on_embedding(true);
    r.on_search(Err("db locked".to_string()));
    assert!(matches!(r.request(), RecallRequest::Recent));
    r.on_recent(Err("db locked".to_string()));
    assert_eq!(outcome(&r), Err("Failed to get recent memories: db locked".to_string()));
}

#[test]
fn memory_command_words() {
    assert!(memory_action("store") == Ok(MemoryAction::Store));
    assert!(memory_action("recall") == Ok(MemoryAction::Recall));
    assert_eq!(memory_action("forget").err(), Some("Unknown memory action: forget".to_string()));
    assert_eq!(store_reply(Ok(7)), Ok("I've stored this information in my memory.".to_string()));
    assert_eq!(store_reply(Err("disk full".to_string())), Err("Failed to store memory: disk full".to_string()));
    assert_eq!(command_response(Ok("fine".to_string())), "fine");
    assert_eq!(command_response(Err("bad".to_string())), "I encountered an error: bad");
}

#[test]
fn api_key_sources() {
    assert_eq!(choose_api_key(Some("k1".to_string()), Some("k2".to_string())), Ok("k1".to_string()));
    assert_eq!(choose_api_key(Some(String::new()), Some("k2".to_string())), Ok("k2".to_string()));
    assert_eq!(choose_api_key(None, Some(String::new())), Err("Mistral API key not found in config or environment".to_string()));
}

#[test]
fn default_settings() {
    let c = AgentConfig::default();
    assert!(c.enable_agent_planning && c.enable_memory);
    assert!(!c.enable_summarization && !c.enable_moderation);
    assert_eq!(c.memory_retention_days, 30);
    assert_eq!(c.max_memory_items, 1000);
}

#[test]
fn store_keeps_memory_without_embedding() {
    assert_eq!(karmaspark::recall::stored_embedding(Ok(vec![1u32, 2])), Some(vec![1u32, 2]));
    assert_eq!(karmaspark::recall::stored_embedding::<Vec<u32>>(Err("down".to_string())), None);
}
