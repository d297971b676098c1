//! Planning loop, action grammar, model-gateway policy and memory helpers of
//! a think-act-observe assistant.

pub mod config;
pub mod executor;
pub mod gateway;
pub mod grammar;
pub mod json;
pub mod memory;
pub mod planner;
pub mod prompts;
pub mod recall;
pub mod records;
pub mod text;
