//! Feature settings of the assistant, and where the provider key comes from.

use vstd::prelude::*;

verus! {

/// Which features are on, and how memories are kept.
pub struct AgentConfig {
    pub enable_agent_planning: bool,
    pub enable_memory: bool,
    pub enable_summarization: bool,
    pub enable_moderation: bool,
    pub memory_retention_days: u32,
    pub max_memory_items: usize,
}

impl Default for AgentConfig {
    fn default() -> (r: AgentConfig)
        ensures
            r.enable_agent_planning && r.enable_memory,
            !r.enable_summarization && !r.enable_moderation,
            r.memory_retention_days == 30,
            r.max_memory_items == 1000,
    {
        AgentConfig {
            enable_agent_planning: true,
            enable_memory: true,
            enable_summarization: false,
            enable_moderation: false,
            memory_retention_days: 30,
            max_memory_items: 1000,
        }
    }
}

/// The provider key: the configured one when it is set and not empty, else
/// the one from the environment when it is set and not empty.
pub fn choose_api_key(configured: Option<String>, environment: Option<String>) -> (r: Result<
    String,
    String,
>)
    ensures
        match (configured, environment) {
            (Some(k), _) if k@.len() > 0 => r matches Ok(x) && x@ == k@,
            (_, Some(k)) if k@.len() > 0 => r matches Ok(x) && x@ == k@,
            _ => r matches Err(m) && m@ == "Mistral API key not found in config or environment"@,
        },
{
    if let Some(k) = configured {
        if k.unicode_len() > 0 {
            return Ok(k);
        }
    }
    if let Some(k) = environment {
        if k.unicode_len() > 0 {
            return Ok(k);
        }
    }
    Err(String::from_str("Mistral API key not found in config or environment"))
}

} // verus!
