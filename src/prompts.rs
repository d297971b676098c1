//! The fixed texts of the planning session: prompts put to the model and the
//! canned answers given when it cannot help.

use vstd::prelude::*;

verus! {

pub const SYSTEM_HEAD: &'static str = "You are KarmaSpark, an intelligent assistant capable of step-by-step problem solving. You will think carefully before taking actions.\nThe user has asked: \"";

pub const SYSTEM_TAIL: &'static str = "\"\n\nTo solve this, you should follow a structured approach:\n1. Think about what you know and what information you need\n2. Decide what action to take\n3. Observe the result\n4. Plan your next step or provide a final answer\n\nWhen you need to take an action, respond using EXACTLY this format:\nACTION: <action_name>\nPARAMETERS: {\"parameter_name\": \"parameter_value\"}\n\nFor example, to search for information:\nACTION: search_information\nPARAMETERS: {\"query\": \"history of chess\"}\n\nTo provide a final answer:\nACTION: answer\nPARAMETERS: {\"final_answer\": \"Your complete answer here\"}\n\nValid actions are:\n- search_information: {\"query\": \"search terms\"}\n- perform_calculation: {\"expression\": \"math expression\"}\n- answer: {\"final_answer\": \"your final answer to the user\"}\n\nIMPORTANT: For simple questions, you can immediately use the answer action without other steps.\nDo not include any narrative text outside of the specified format.";

pub const FIRST_THOUGHT_HEAD: &'static str = "I need to help answer the user's question: \"";

pub const FIRST_THOUGHT_TAIL: &'static str = "\". Let me think about this step by step.";

pub const FIRST_STEP: &'static str = "What is your first step to solve this problem?";

pub const NEXT_STEP: &'static str = "What is your next step? You can either think more about the problem, take an action, or provide your final answer.";

pub const DIRECT_HEAD: &'static str = "You are a helpful assistant. Provide a direct, concise answer to this question: \"";

pub const DIRECT_INTRO_HEAD: &'static str = "I've thought about your question \"";

pub const DIRECT_INTRO_TAIL: &'static str = "\" and here's my answer:\n\n";

pub const DIRECT_APOLOGY: &'static str = "I'm not able to provide a complete answer at this time. Please try asking your question differently.";

pub const SUMMARY_HEAD: &'static str = "You are KarmaSpark, an intelligent assistant. Based on the following thought process and observations, provide a concise and helpful answer to the user's question: \"";

pub const SUMMARY_TAIL: &'static str = "\". Focus on giving the most useful information you've gathered so far.";

pub const SUMMARY_QUESTION: &'static str = "Based on all the information you've gathered, what's your final answer to my question?";

pub const SUMMARY_FALLBACK: &'static str = "I wasn't able to find a complete answer to your question in the time available.";

pub const PARTIAL_HEAD: &'static str = "I encountered an issue while processing your question about '";

pub const PARTIAL_MIDDLE: &'static str = "', but here's what I found so far:\n\n";

pub const PARTIAL_TAIL: &'static str = "\nI apologize that I couldn't complete the full analysis due to technical limitations.";

pub const GREETING: &'static str = "Hello! How can I assist you today?";

pub const QUOTE: &'static str = "\"";

} // verus!
