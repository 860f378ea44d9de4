//! Application and tool configuration.

use vstd::prelude::*;
use crate::keyed::KeyedList;
use crate::types::{CompactionPolicy, ToolDefinition};

verus! {

/// Which models serve which kind of request, by model name.
#[derive(Debug, Clone, PartialEq, Eq)]
pub struct LlmConfig {
    pub conversation_models: Vec<String>,
    pub summarization_models: Vec<String>,
    pub check_termination_models: Vec<String>,
    pub context_evaluation_models: Vec<String>,
    pub api_key: Option<String>,
}

impl Default for LlmConfig {
    /// No models and no key.
    fn default() -> (r: Self)
        ensures
            r.conversation_models@.len() == 0,
            r.summarization_models@.len() == 0,
            r.check_termination_models@.len() == 0,
            r.context_evaluation_models@.len() == 0,
            r.api_key is None,
    {
        LlmConfig {
            conversation_models: Vec::new(),
            summarization_models: Vec::new(),
            check_termination_models: Vec::new(),
            context_evaluation_models: Vec::new(),
            api_key: None,
        }
    }
}

/// Settings of the agent-loop service.
#[derive(Debug, Clone, PartialEq, Eq)]
pub struct AppConfig {
    pub database_url: String,
    pub server_address: String,
    pub evaluator_sleep_seconds: u64,
    pub session_timeout_seconds: u64,
    pub llm_config: LlmConfig,
    pub compaction_policy: CompactionPolicy,
    pub max_conversation_length: usize,
}

impl Default for AppConfig {
    /// Empty addresses, zero durations and lengths, no models, and the
    /// default compaction policy.
    fn default() -> (r: Self)
        ensures
            r.database_url@.len() == 0,
            r.server_address@.len() == 0,
            r.evaluator_sleep_seconds == 0,
            r.session_timeout_seconds == 0,
            r.llm_config.conversation_models@.len() == 0,
            r.llm_config.summarization_models@.len() == 0,
            r.llm_config.check_termination_models@.len() == 0,
            r.llm_config.context_evaluation_models@.len() == 0,
            r.llm_config.api_key is None,
            r.compaction_policy.keep_last == 0,
            r.compaction_policy.summary_length == 0,
            r.max_conversation_length == 0,
    {
        AppConfig {
            database_url: String::new(),
            server_address: String::new(),
            evaluator_sleep_seconds: 0,
            session_timeout_seconds: 0,
            llm_config: LlmConfig::default(),
            compaction_policy: CompactionPolicy::default(),
            max_conversation_length: 0,
        }
    }
}

/// Tools supplied by the host application: their definitions, and a handler
/// of type `H` for each tool name.
pub struct ExternalToolsConfig<H> {
    /// Definitions shown to the model.
    pub definitions: Vec<ToolDefinition>,
    /// Handlers keyed by tool name.
    pub handlers: KeyedList<H>,
}

impl<H> ExternalToolsConfig<H> {
    /// No tools.
    pub fn new() -> (r: Self)
        ensures
            r.definitions@.len() == 0,
            r.handlers@ == Map::<Seq<char>, H>::empty(),
    {
        ExternalToolsConfig { definitions: Vec::new(), handlers: KeyedList::new() }
    }
}

impl<H> Default for ExternalToolsConfig<H> {
    /// No tools, as `new` gives.
    fn default() -> (r: Self)
        ensures
            r.definitions@.len() == 0,
            r.handlers@ == Map::<Seq<char>, H>::empty(),
    {
        Self::new()
    }
}

/// Definitions of the tools built into the agent loop: there are none, the
/// host supplies every tool.
pub fn get_internal_tool_definitions() -> (r: Vec<ToolDefinition>)
    ensures
        r@.len() == 0,
{
    Vec::new()
}

/// Handlers of the tools built into the agent loop: there are none.
pub fn get_internal_tool_handlers<H>() -> (r: KeyedList<H>)
    ensures
        r@ == Map::<Seq<char>, H>::empty(),
{
    KeyedList::new()
}

} // verus!
