use agentloop::config::{AppConfig, LlmConfig};
use agentloop::research::{initial_user_entry, ResearchRequest};
use agentloop::research_loop::{LoopAction, LoopEvent, LoopMode, LoopOutcome, Phase, ResearchLoop};
use agentloop::session::SessionStore;
use agentloop::stream::StreamError;
use agentloop::tools::{tool_result_entry, ToolCallOutcome};
use agentloop::types::{
    CompactionPolicy, ConversationEntry, EvaluationPolicy, FullToolResponse, LlmAgentResponse, Sender,
    SessionConfig, SessionData, SessionStatus, TimeLimit, ToolChoice, ToolResponse, UserToolFailure,
    UserToolResponse,
};

const SID: &str = "0b7f8f5e-2c1d-4e3a-9b8c-7d6e5f4a3b2c";

fn config(keep_last: usize) -> AppConfig {
    AppConfig {
        database_url: String::new(),
        server_address: String::new(),
        evaluator_sleep_seconds: 1,
        session_timeout_seconds: 3600,
        llm_config: LlmConfig {
            conversation_models: vec![String::from("m")],
            summarization_models: vec![],
            check_termination_models: vec![],
            context_evaluation_models: vec![],
            api_key: None,
        },
        compaction_policy: CompactionPolicy { keep_last, summary_length: 100 },
        max_conversation_length: 100,
    }
}

fn session(history: Vec<ConversationEntry>, goal: Option<&str>) -> SessionData {
    SessionData {
        user_id: String::from("u"),
        session_id: String::from(SID),
        status: SessionStatus::Running { progress: None },
        config: SessionConfig {
            time_limit: TimeLimit::from_secs(600),
            token_threshold: 1000,
            preserve_exchanges: 5,
            initial_instruction: None,
            compaction_policy: CompactionPolicy::default(),
            evaluation_policy: EvaluationPolicy::default(),
        },
        history,
        context: vec![],
        research_goal: goal.map(|g| g.to_string()),
        created_at: 1_000_000,
        last_activity_timestamp: 1_000_000,
        messages: vec![],
        system_message: None,
        tool_definitions: vec![],
    }
}

fn user(msg: &str) -> ConversationEntry {
    ConversationEntry::plain(String::from("u1"), Sender::User, msg.to_string(), 1_000_000)
}

fn started(mode: LoopMode, keep_last: usize) -> ResearchLoop {
    let mut lp = ResearchLoop::new(mode, String::from(SID), String::from("goal"), config(keep_last));
    lp.step_at(LoopEvent::Start, 0, String::new());
    lp.step_at(LoopEvent::StatusUpdated(Ok(())), 0, String::new());
    lp
}

fn fetch(lp: &mut ResearchLoop, d: SessionData, now: i64) -> LoopAction {
    match lp.step_at(LoopEvent::SessionFetched(Some(d)), now, String::new()) {
        LoopAction::CheckTermination => lp.step_at(LoopEvent::TerminationChecked(false), now, String::new()),
        other => other,
    }
}

#[test]
fn test_initialization_success() {
    let mut lp = ResearchLoop::new(LoopMode::Background, String::from(SID), String::from("goal"), config(10));
    assert!(matches!(lp.phase, Phase::Ready));
    let a = lp.step_at(LoopEvent::Start, 0, String::new());
    assert!(matches!(a, LoopAction::UpdateStatus(SessionStatus::Running { progress: None })));
    let a = lp.step_at(LoopEvent::StatusUpdated(Ok(())), 0, String::new());
    assert!(matches!(a, LoopAction::FetchSession));
}

#[test]
fn test_initialization_failure() {
    let mut lp = ResearchLoop::new(LoopMode::Background, String::from(SID), String::from("goal"), config(10));
    lp.step_at(LoopEvent::Start, 0, String::new());
    let a = lp.step_at(LoopEvent::StatusUpdated(Err(String::from("Session not found: x"))), 0, String::new());
    match a {
        LoopAction::Finish(LoopOutcome::Failed(m)) => {
            assert_eq!(m, "Failed to set session status to Running: Session not found: x")
        },
        other => panic!("unexpected {:?}", other),
    }
}

#[test]
fn test_llm_turn_success_no_tools() {
    let mut lp = started(LoopMode::Background, 10);
    fetch(&mut lp, session(vec![user("q")], Some("goal")), 1_000_000);
    let resp = LlmAgentResponse {
        user_answer: String::from("Partial"),
        agent_reasoning: String::from("r"),
        actions: vec![],
        is_final: false,
        title: None,
    };
    lp.step_at(LoopEvent::ModelReplied(Ok(resp)), 1, String::from("a1"));
    lp.step_at(LoopEvent::EntryAdded(Ok(())), 0, String::new());
    lp.step_at(LoopEvent::Acknowledged, 0, String::new());
    let a = lp.step_at(LoopEvent::Acknowledged, 0, String::new());
    assert!(matches!(a, LoopAction::FetchSession), "a non-final answer without tools starts the next iteration");
}

#[test]
fn test_llm_turn_success_with_tools() {
    let mut lp = started(LoopMode::Background, 10);
    fetch(&mut lp, session(vec![user("q")], Some("goal")), 1_000_000);
    let resp = LlmAgentResponse {
        user_answer: String::from("Searching"),
        agent_reasoning: String::from("r"),
        actions: vec![ToolChoice { name: String::from("search"), parameters: String::from("{\"query\":\"q\"}") }],
        is_final: false,
        title: Some(String::from("T")),
    };
    match lp.step_at(LoopEvent::ModelReplied(Ok(resp)), 1, String::from("a1")) {
        LoopAction::AddEntry(e) => {
            assert_eq!(e.tools.len(), 1);
            assert_eq!(e.tools[0].name, "search");
        },
        other => panic!("unexpected {:?}", other),
    }
}

#[test]
fn test_llm_turn_failure() {
    let mut lp = started(LoopMode::Background, 10);
    fetch(&mut lp, session(vec![user("q")], Some("goal")), 1_000_000);
    let a = lp.step_at(LoopEvent::ModelReplied(Err(StreamError::LlmCallFailed(String::from("x")))), 0, String::new());
    assert!(matches!(a, LoopAction::UpdateStatus(SessionStatus::Error)));
    match lp.step_at(LoopEvent::StatusUpdated(Ok(())), 0, String::new()) {
        LoopAction::Finish(LoopOutcome::Failed(m)) => assert_eq!(m, "LLM turn failed: LLM call failed: LLM typed call failed: x"),
        other => panic!("unexpected {:?}", other),
    }
}

#[test]
fn test_llm_turn_history_add_failure() {
    let mut lp = started(LoopMode::Background, 10);
    match fetch(&mut lp, session(vec![user("q")], None), 1_000_000) {
        LoopAction::UpdateStatus(SessionStatus::Error) => {},
        other => panic!("unexpected {:?}", other),
    }
    match lp.step_at(LoopEvent::StatusUpdated(Ok(())), 0, String::new()) {
        LoopAction::Finish(LoopOutcome::Failed(m)) => assert_eq!(
            m,
            format!("LLM turn failed: Cannot process LLM turn for session {}: No research goal found.", SID)
        ),
        other => panic!("unexpected {:?}", other),
    }
}

#[test]
fn test_compaction_needed_and_succeeds() {
    let mut lp = started(LoopMode::Background, 1);
    let a = fetch(&mut lp, session(vec![user("a"), user("b")], Some("goal")), 1_000_000);
    assert!(matches!(a, LoopAction::Compact));
    assert!(matches!(lp.step_at(LoopEvent::Compacted(Ok(())), 0, String::new()), LoopAction::FetchSession));
    let compacted = session(vec![user("summary"), user("b")], Some("goal"));
    match fetch(&mut lp, compacted.clone(), 0) {
        LoopAction::CallModel(d) => assert_eq!(d, compacted),
        other => panic!("unexpected {:?}", other),
    }
}

#[test]
fn test_compaction_needed_but_fails() {
    let mut lp = started(LoopMode::Background, 1);
    let before = session(vec![user("a"), user("b")], Some("goal"));
    fetch(&mut lp, before.clone(), 1_000_000);
    let a = lp.step_at(LoopEvent::Compacted(Err(String::from("Failed to compact history: x"))), 0, String::new());
    assert!(matches!(a, LoopAction::FetchSession), "a failed compaction first looks whether the session is still there");
    let now_stored = session(vec![user("a"), user("b"), user("c")], Some("goal"));
    match lp.step_at(LoopEvent::SessionFetched(Some(now_stored)), 0, String::new()) {
        LoopAction::CallModel(d) => assert_eq!(d, before, "a failed compaction goes on with the session as it was"),
        other => panic!("unexpected {:?}", other),
    }
}

#[test]
fn session_vanishing_during_compaction_ends_the_loop() {
    let mut lp = started(LoopMode::Background, 1);
    fetch(&mut lp, session(vec![user("a"), user("b")], Some("goal")), 1_000_000);
    let a = lp.step_at(
        LoopEvent::Compacted(Err(String::from("Session disappeared during compaction finalization: x"))),
        0,
        String::new(),
    );
    assert!(matches!(a, LoopAction::FetchSession));
    assert!(matches!(lp.step_at(LoopEvent::SessionFetched(None), 0, String::new()), LoopAction::UpdateStatus(SessionStatus::Error)));
    match lp.step_at(LoopEvent::StatusUpdated(Ok(())), 0, String::new()) {
        LoopAction::Finish(LoopOutcome::Failed(m)) => {
            assert_eq!(m, format!("Compaction failed: Session {} disappeared after compaction.", SID))
        },
        other => panic!("unexpected {:?}", other),
    }
}

#[test]
fn test_compaction_needed_but_session_disappears() {
    let mut lp = started(LoopMode::Sync, 1);
    fetch(&mut lp, session(vec![user("a"), user("b")], Some("goal")), 1_000_000);
    lp.step_at(LoopEvent::Compacted(Ok(())), 0, String::new());
    assert!(matches!(lp.step_at(LoopEvent::SessionFetched(None), 0, String::new()), LoopAction::UpdateStatus(SessionStatus::Error)));
    assert!(matches!(lp.step_at(LoopEvent::StatusUpdated(Err(String::from("gone"))), 0, String::new()), LoopAction::Finish(LoopOutcome::Failed(_))));
}

#[test]
fn test_compaction_not_needed() {
    let mut lp = started(LoopMode::Background, 5);
    let a = fetch(&mut lp, session(vec![user("a"), user("b")], Some("goal")), 1_000_000);
    assert!(matches!(a, LoopAction::CallModel(_)));
}

#[test]
fn test_handle_one_tool_success_stores_serialized_toolresult() {
    let choice = ToolChoice { name: String::from("search"), parameters: String::from("{\"query\":\"q\"}") };
    let full = FullToolResponse { tool_name: String::from("search"), response: String::from("{\"hits\":3}") };
    let outcome = ToolCallOutcome {
        result: Ok((full.clone(), UserToolResponse { tool_name: String::from("search"), summary: String::from("3 hits") })),
        serialized: Ok(String::from("{\"tool_name\":\"search\",\"response\":{\"hits\":3}}")),
    };
    let e = tool_result_entry(&choice, outcome, String::from("t1"), 77);
    assert_eq!(e.sender, Sender::Tool);
    assert_eq!(e.message, "{\"tool_name\":\"search\",\"response\":{\"hits\":3}}");
    assert_eq!(e.tools, vec![choice.clone()]);
    assert_eq!(e.tool_choice, Some(choice));
    assert_eq!(e.tool_response, Some(ToolResponse::Success(full)));
    assert_eq!(e.timestamp, 77);
}

#[test]
fn test_handle_one_tool_failure_stores_serialized_toolresult() {
    let choice = ToolChoice { name: String::from("browse"), parameters: String::from("{}") };
    let outcome = ToolCallOutcome {
        result: Err(String::from("Dummy failure")),
        serialized: Ok(String::from("{\"error\":\"Dummy failure\"}")),
    };
    let e = tool_result_entry(&choice, outcome, String::from("t2"), 78);
    assert_eq!(e.sender, Sender::System);
    assert_eq!(e.message, "{\"error\":\"Dummy failure\"}");
    assert_eq!(e.tool_response, Some(ToolResponse::Failure(UserToolFailure { error: String::from("Dummy failure") })));
    let unserialized = ToolCallOutcome {
        result: Ok((
            FullToolResponse { tool_name: String::from("x"), response: String::from("1") },
            UserToolResponse { tool_name: String::from("x"), summary: String::new() },
        )),
        serialized: Err(String::from("bad")),
    };
    let e2 = tool_result_entry(&choice, unserialized, String::from("t3"), 79);
    assert_eq!(e2.message, "Tool succeeded, but FullToolResponse serialization failed: bad");
}

#[test]
fn research_session_opens_with_framed_instruction() {
    let mut store = SessionStore::new();
    let request = ResearchRequest { user_id: String::from("u"), instruction: String::from("Instruction without attachments"), attachments: None };
    let id = store.open_research_session(request, None, 120);
    assert!(uuid::Uuid::parse_str(&id).is_ok());
    let d = store.get_session(&id).unwrap();
    assert_eq!(d.history.len(), 1);
    assert_eq!(d.history[0].sender, Sender::User);
    assert_eq!(d.history[0].message, "<MAIN_TASK>\nInstruction without attachments\n</MAIN_TASK>");
    assert_eq!(d.status, SessionStatus::Pending);
    assert_eq!(d.config.token_threshold, 100000);
    assert_eq!(d.config.preserve_exchanges, 10);
    assert_eq!(d.config.time_limit, TimeLimit::from_secs(120));
    assert_eq!(d.research_goal, Some(String::from("Instruction without attachments")));
    let e = initial_user_entry(String::from("m"), vec![], String::from("i"), 5);
    assert_eq!(e.message, "m");
    assert_eq!(e.timestamp, 5);
}
