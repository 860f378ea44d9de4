use agentloop::compaction::{plan_summary, should_compact_history, summary_outcome, SummaryPlan};
use agentloop::config::{AppConfig, LlmConfig};
use agentloop::session::SessionStore;
use agentloop::types::{
    CompactionPolicy, ConversationEntry, EvaluationPolicy, Sender, SessionConfig, SessionData, SessionStatus,
    TimeLimit,
};

fn test_config(keep_last: usize, summary_length: usize) -> AppConfig {
    AppConfig {
        database_url: String::from("dummy_db_url"),
        server_address: String::from("dummy_server_addr"),
        evaluator_sleep_seconds: 60,
        session_timeout_seconds: 3600,
        llm_config: LlmConfig {
            conversation_models: vec![],
            summarization_models: vec![],
            check_termination_models: vec![],
            context_evaluation_models: vec![],
            api_key: None,
        },
        compaction_policy: CompactionPolicy { keep_last, summary_length },
        max_conversation_length: 100,
    }
}

fn entry(sender: Sender, message: &str, timestamp: i64) -> ConversationEntry {
    ConversationEntry::plain(String::from("e"), sender, message.to_string(), timestamp)
}

fn dummy_history(len: usize) -> Vec<ConversationEntry> {
    (0..len).map(|i| entry(Sender::User, "x", i as i64)).collect()
}

fn session_with(history: Vec<ConversationEntry>) -> SessionData {
    SessionData {
        user_id: String::from("u"),
        session_id: String::from("s"),
        status: SessionStatus::Pending,
        config: SessionConfig {
            time_limit: TimeLimit::from_secs(300),
            token_threshold: 1000,
            preserve_exchanges: 5,
            initial_instruction: None,
            compaction_policy: CompactionPolicy::default(),
            evaluation_policy: EvaluationPolicy::default(),
        },
        history,
        context: vec![],
        research_goal: None,
        created_at: 0,
        last_activity_timestamp: 0,
        messages: vec![],
        system_message: None,
        tool_definitions: vec![],
    }
}

#[test]
fn test_history_below_threshold() {
    let keep_last = 10;
    let history_len = 5;
    let result = should_compact_history(&dummy_history(history_len), &test_config(keep_last, 500));
    assert_eq!(result, false, "Should not compact when history length ({}) is less than keep_last ({})", history_len, keep_last);
}

#[test]
fn test_history_at_threshold() {
    let keep_last = 10;
    let history_len = 10;
    let result = should_compact_history(&dummy_history(history_len), &test_config(keep_last, 500));
    assert_eq!(result, false, "Should not compact when history length ({}) is equal to keep_last ({})", history_len, keep_last);
}

#[test]
fn test_history_above_threshold() {
    let keep_last = 10;
    let history_len = 15;
    let result = should_compact_history(&dummy_history(history_len), &test_config(keep_last, 500));
    assert_eq!(result, true, "Should compact when history length ({}) is greater than keep_last ({})", history_len, keep_last);
}

#[test]
fn test_history_with_zero_threshold() {
    let keep_last = 0;
    let history_len = 1;
    let result = should_compact_history(&dummy_history(history_len), &test_config(keep_last, 500));
    assert_eq!(result, true, "Should compact when history length ({}) is greater than keep_last ({})", history_len, keep_last);
}

#[test]
fn test_empty_history_with_zero_threshold() {
    let keep_last = 0;
    let history_len = 0;
    let result = should_compact_history(&dummy_history(history_len), &test_config(keep_last, 500));
    assert_eq!(result, false, "Should not compact when history length ({}) is equal to keep_last ({})", history_len, keep_last);
}

#[test]
fn zero_keep_last_compacts_any_history() {
    let config = test_config(0, 500);
    assert!(should_compact_history(&dummy_history(1), &config));
    assert!(should_compact_history(&dummy_history(20), &config));
    assert!(!should_compact_history(&dummy_history(0), &config));
}

#[test]
fn test_summarize_empty_entries() {
    let plan = plan_summary(&vec![], 0);
    assert_eq!(plan, SummaryPlan::Immediate(String::from("No entries to summarize.")));
    match plan {
        SummaryPlan::Immediate(s) => assert_eq!(s, "No entries to summarize."),
        SummaryPlan::Ask(_) => panic!("nothing to ask"),
    }
}

#[test]
fn summary_prompt_lists_the_entries() {
    let history = vec![
        entry(Sender::User, "Hello there.", 1),
        entry(Sender::Agent, "Hi! How can I help?", 2),
        entry(Sender::User, "Tell me about Rust.", 3),
    ];
    let plan = plan_summary(&history, 2);
    assert_eq!(
        plan,
        SummaryPlan::Ask(String::from(
            "Summarize the following conversation concisely, capturing the key points and flow:\\n\\n---\\nUser: Hello there.\\nAgent: Hi! How can I help?\\n---"
        ))
    );
}

#[test]
fn summarization_failure_is_reported() {
    assert_eq!(summary_outcome(Ok(String::from("s"))), Ok(String::from("s")));
    assert_eq!(
        summary_outcome(Err(String::from("boom"))),
        Err(String::from("Typed LLM summarization failed: boom"))
    );
}

#[test]
fn test_compact_keep_last_sufficient_entries_state_change() {
    let mut store = SessionStore::new();
    store.insert_session(
        String::from("s"),
        session_with(vec![
            entry(Sender::User, "Entry 1", 100),
            entry(Sender::Agent, "Entry 2", 200),
            entry(Sender::User, "Entry 3 - Keep", 300),
        ]),
    );
    let job = store.begin_compaction("s", 1).unwrap().expect("history is long enough");
    assert_eq!(job.summarized_count, 2);
    assert_eq!(job.last_timestamp, 200);
    let result = store.finish_compaction_at("s", job.summarized_count, job.last_timestamp, Ok(String::from("Mock summary text.")), 999);
    assert!(result.is_ok());
    let session_data = store.get_session("s").expect("Session should exist");
    let history = &session_data.history;
    assert_eq!(history.len(), 2, "History should have 2 entries: summary + kept");
    assert_eq!(history[0].sender, Sender::System, "First entry should be System summary");
    assert!(history[0].message.contains("Mock summary text."), "Summary message check failed");
    assert_eq!(history[0].message, "Summary of earlier conversation: Mock summary text.");
    assert_eq!(history[0].timestamp, 200);
    assert_eq!(history[0].id, "00000000-0000-0000-0000-000000000000");
    assert_eq!(history[1].message, "Entry 3 - Keep", "Second entry should be the kept one");
    assert_eq!(session_data.last_activity_timestamp, 999);
}

#[test]
fn test_compact_keep_last_insufficient_entries_no_change() {
    let mut store = SessionStore::new();
    let before = vec![entry(Sender::User, "Entry 1", 1), entry(Sender::Agent, "Entry 2", 2)];
    store.insert_session(String::from("s"), session_with(before.clone()));
    let result = store.begin_compaction("s", 3);
    assert!(result.is_ok(), "Should return Ok when no compaction occurs");
    assert!(result.unwrap().is_none());
    let history = &store.get_session("s").unwrap().history;
    assert_eq!(history.len(), 2, "History length should be unchanged");
    assert_eq!(history[0].message, before[0].message);
    assert_eq!(history[1].message, before[1].message);
}

#[test]
fn compaction_of_unknown_session_fails() {
    let store = SessionStore::new();
    assert_eq!(store.begin_compaction("nope", 1), Err(String::from("Session not found for compaction: nope")));
}

#[test]
fn failed_summary_leaves_history_alone() {
    let mut store = SessionStore::new();
    store.insert_session(String::from("s"), session_with(dummy_history(4)));
    let r = store.finish_compaction_at("s", 3, 2, Err(String::from("llm down")), 10);
    assert_eq!(r, Err(String::from("Failed to compact history: llm down")));
    assert_eq!(store.get_session("s").unwrap().history.len(), 4);
    let gone = store.finish_compaction_at("missing", 1, 0, Ok(String::from("x")), 10);
    assert_eq!(gone, Err(String::from("Session disappeared during compaction finalization: missing")));
}

#[test]
fn test_summarize_basic_conversation_mock_needed() {
    let entries = vec![
        entry(Sender::User, "Hello there.", 60),
        entry(Sender::Agent, "Hi! How can I help?", 30),
        entry(Sender::User, "Tell me about Rust.", 90),
    ];
    let plan = plan_summary(&entries, entries.len());
    println!("Summarization Result (Mock Needed): {:?}", plan);
    assert_eq!(
        plan,
        SummaryPlan::Ask(String::from(
            "Summarize the following conversation concisely, capturing the key points and flow:\\n\\n---\\nUser: Hello there.\\nAgent: Hi! How can I help?\\nUser: Tell me about Rust.\\n---"
        )),
        "Function should return Ok or Err"
    );
}

#[test]
fn test_summarize_single_entry_mock_needed() {
    let entries = vec![entry(Sender::User, "Just saying hello.", 1)];
    let plan = plan_summary(&entries, 1);
    println!("Summarization Result (Single Entry - Mock Needed): {:?}", plan);
    assert_eq!(
        plan,
        SummaryPlan::Ask(String::from(
            "Summarize the following conversation concisely, capturing the key points and flow:\\n\\n---\\nUser: Just saying hello.\\n---"
        )),
        "Function should return Ok or Err"
    );
}
