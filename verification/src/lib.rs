//! Verified core of the agent loop: session bookkeeping, prompt building,
//! history compaction, termination rules and the research-loop state machine,
//! together with the request analysis of the social-media agent.

pub mod agent;
pub mod compaction;
pub mod config;
pub mod evaluation;
pub mod final_answer;
pub mod history_views;
pub mod keyed;
pub mod message_format;
pub mod platform;
pub mod prompt;
pub mod research;
pub mod research_loop;
pub mod session;
pub mod stream;
pub mod sufficiency;
pub mod termination;
pub mod tools;
pub mod text;
pub mod types;

