use agentloop::message_format::format_message_with_attachments;
use agentloop::session::{LoadSessionRequest, SessionLookupError, SessionStore};
use agentloop::types::{
    Attachment, AttachmentType, CompactionPolicy, ContextEntry, ConversationEntry, EvaluationPolicy, Sender,
    SessionConfig, SessionData, SessionStatus, TextAttachment, TimeLimit, ToolParameters,
};

fn default_session_config() -> SessionConfig {
    SessionConfig {
        time_limit: TimeLimit::from_secs(300),
        token_threshold: 1000,
        preserve_exchanges: 5,
        initial_instruction: None,
        compaction_policy: CompactionPolicy::default(),
        evaluation_policy: EvaluationPolicy::default(),
    }
}

fn minimal_session(id: &str, status: SessionStatus) -> SessionData {
    SessionData {
        user_id: String::from("user-1"),
        session_id: id.to_string(),
        status,
        config: default_session_config(),
        history: vec![],
        context: vec![],
        research_goal: None,
        created_at: 1_000,
        last_activity_timestamp: 1_000,
        messages: vec![],
        system_message: None,
        tool_definitions: vec![],
    }
}

fn user_entry(message: &str) -> ConversationEntry {
    ConversationEntry::plain(String::from("entry-1"), Sender::User, message.to_string(), 2_000)
}

#[test]
fn test_get_session_ids_logic_basic() {
    let mut store = SessionStore::new();
    let id1 = uuid::Uuid::new_v4().to_string();
    let id2 = uuid::Uuid::new_v4().to_string();
    store.insert_session(id1.clone(), minimal_session(&id1, SessionStatus::Pending));
    store.insert_session(id2.clone(), minimal_session(&id2, SessionStatus::Pending));
    let mut expected_ids = vec![id1, id2];
    let mut actual_ids = store.get_session_ids();
    expected_ids.sort();
    actual_ids.sort();
    assert_eq!(actual_ids, expected_ids);
}

#[test]
fn test_get_session_ids_logic_empty() {
    let store = SessionStore::new();
    let actual_ids = store.get_session_ids();
    let expected_ids: Vec<String> = Vec::new();
    assert_eq!(actual_ids, expected_ids);
}

#[test]
fn test_create_and_get_session_async() {
    let mut store = SessionStore::new();
    let config = default_session_config();
    let session_id = store.create_session(String::from("user-1"), config.clone());
    assert_eq!(store.len(), 1);
    assert!(uuid::Uuid::parse_str(&session_id).is_ok());
    let session = store.get_session(&session_id);
    assert!(session.is_some());
    let session = session.unwrap();
    assert_eq!(session.status, SessionStatus::Pending);
    assert_eq!(session.config.time_limit, config.time_limit);
    assert_eq!(session.config.token_threshold, config.token_threshold);
    assert!(session.history.is_empty());
    assert!(session.context.is_empty());
}

#[test]
fn created_sessions_get_distinct_ids() {
    let mut store = SessionStore::new();
    let a = store.create_session(String::from("u"), default_session_config());
    let b = store.create_session(String::from("u"), default_session_config());
    assert_ne!(a, b);
    assert_eq!(store.len(), 2);
    assert_eq!(a.len(), 36);
}

#[test]
fn test_update_status_async() {
    let mut store = SessionStore::new();
    let session_id = store.create_session(String::from("user-1"), default_session_config());
    let new_status = SessionStatus::Running { progress: Some(String::from("50%")) };
    let update_result = store.update_status(&session_id, new_status.clone());
    assert!(update_result.is_ok());
    let session = store.get_session(&session_id).unwrap();
    assert_eq!(session.status, new_status);

    let fake_id = uuid::Uuid::new_v4().to_string();
    let update_result_fail = store.update_status(&fake_id, SessionStatus::Error);
    assert!(update_result_fail.is_err());
    assert_eq!(update_result_fail.unwrap_err(), format!("Session not found: {}", fake_id));
}

#[test]
fn update_status_at_stamps_the_given_time() {
    let mut store = SessionStore::new();
    store.insert_session(String::from("s"), minimal_session("s", SessionStatus::Pending));
    assert!(store.update_status_at("s", SessionStatus::Completed, 42).is_ok());
    let s = store.get_session("s").unwrap();
    assert_eq!(s.status, SessionStatus::Completed);
    assert_eq!(s.last_activity_timestamp, 42);
    assert_eq!(s.created_at, 1_000);
}

#[test]
fn test_add_conversation_entry_async() {
    let mut store = SessionStore::new();
    let session_id = store.create_session(String::from("user-1"), default_session_config());
    let entry = user_entry("Hello");
    let add_result = store.add_conversation_entry(&session_id, entry.clone());
    assert!(add_result.is_ok());
    let session = store.get_session(&session_id).unwrap();
    assert_eq!(session.history.len(), 1);
    assert_eq!(session.history[0], entry);

    let fake_id = uuid::Uuid::new_v4().to_string();
    let add_result_fail = store.add_conversation_entry(&fake_id, entry);
    assert!(add_result_fail.is_err());
    assert_eq!(add_result_fail.unwrap_err(), format!("Session not found: {}", fake_id));
}

#[test]
fn test_add_context_entry_async() {
    let mut store = SessionStore::new();
    let session_id = store.create_session(String::from("user-1"), default_session_config());
    let entry = ContextEntry {
        content: String::from("Some context"),
        source: Some(String::from("test.txt")),
        timestamp: 5_000,
    };
    let add_result = store.add_context_entry(&session_id, entry.clone());
    assert!(add_result.is_ok());
    let session = store.get_session(&session_id).unwrap();
    assert_eq!(session.context.len(), 1);
    assert_eq!(session.context[0].content, entry.content);
    assert_eq!(session.context[0].source, entry.source);

    let fake_id = uuid::Uuid::new_v4().to_string();
    let add_result_fail = store.add_context_entry(&fake_id, entry);
    assert!(add_result_fail.is_err());
    assert_eq!(add_result_fail.unwrap_err(), format!("Session not found: {}", fake_id));
}

#[test]
fn test_post_message_success_no_attachments() {
    let test_session_id = String::from("test-session-123");
    let test_message_content = String::from("Hello, agent!");
    let mut store = SessionStore::new();
    store.insert_session(test_session_id.clone(), minimal_session(&test_session_id, SessionStatus::Created));
    let effective = format_message_with_attachments(&test_message_content, None);
    let delivered = store.post_user_message(&test_session_id, effective, vec![]);
    assert!(delivered);
    let updated = store.get_session(&test_session_id).expect("Session should exist");
    assert_eq!(updated.history.len(), 1);
    let added_entry = &updated.history[0];
    assert_eq!(added_entry.sender, Sender::User);
    let expected_message = format!("<MAIN_TASK>\n{}\n</MAIN_TASK>", test_message_content);
    assert_eq!(added_entry.message, expected_message);
    assert!(added_entry.tools.is_empty());
    assert_eq!(updated.status, SessionStatus::Created);
    assert_eq!(updated.research_goal, None);
}

#[test]
fn test_post_message_session_not_found() {
    let non_existent_session_id = String::from("non-existent-session");
    let mut store = SessionStore::new();
    let effective = format_message_with_attachments("Should not be delivered", None);
    let delivered = store.post_user_message(&non_existent_session_id, effective, vec![]);
    assert!(!delivered);
    assert!(store.get_session(&non_existent_session_id).is_none());
    assert_eq!(store.len(), 0);
}

#[test]
fn test_post_message_awaiting_input_to_pending() {
    let test_session_id = String::from("test-session-awaiting");
    let test_message_content = String::from("Continuing the conversation");
    let mut initial = minimal_session(&test_session_id, SessionStatus::AwaitingInput);
    initial.research_goal = Some("Old goal".to_string());
    let mut store = SessionStore::new();
    store.insert_session(test_session_id.clone(), initial);
    let effective = format_message_with_attachments(&test_message_content, None);
    assert!(store.post_user_message(&test_session_id, effective, vec![]));
    let updated = store.get_session(&test_session_id).expect("Session should exist");
    assert_eq!(updated.status, SessionStatus::Pending);
    let expected = format!("<MAIN_TASK>\n{}\n</MAIN_TASK>", test_message_content);
    assert_eq!(updated.research_goal, Some(expected.clone()));
    assert_eq!(updated.history.len(), 1);
    assert_eq!(updated.history[0].sender, Sender::User);
    assert_eq!(updated.history[0].message, expected);
}

#[test]
fn test_post_message_with_text_attachment() {
    let test_session_id = String::from("test-session-attach");
    let instruction_text = "Message with an attachment.";
    let attachment = Attachment {
        title: Some("MyDoc.txt".to_string()),
        kind: AttachmentType::Text(TextAttachment {
            content: "This is the text content of the attachment.".to_string(),
        }),
    };
    let mut store = SessionStore::new();
    store.insert_session(test_session_id.clone(), minimal_session(&test_session_id, SessionStatus::AwaitingInput));
    let attachments_json = "[\n  {\n    \"title\": \"MyDoc.txt\",\n    \"kind\": {\n      \"Text\": {\n        \"content\": \"This is the text content of the attachment.\"\n      }\n    }\n  }\n]";
    let effective = format_message_with_attachments(instruction_text, Some(attachments_json));
    assert!(store.post_user_message(&test_session_id, effective, vec![attachment.clone()]));
    let updated = store.get_session(&test_session_id).expect("Session should exist");
    assert_eq!(updated.history.len(), 1);
    let expected = format!(
        "<ADDITIONAL_CONTEXT>\n{}\n</ADDITIONAL_CONTEXT>\n\n<MAIN_TASK>\n{}\n</MAIN_TASK>",
        attachments_json, instruction_text
    );
    assert_eq!(updated.history[0].message, expected);
    assert_eq!(updated.history[0].attachments, vec![attachment]);
    assert_eq!(updated.status, SessionStatus::Pending);
    assert_eq!(updated.research_goal, Some(expected));
}

#[test]
fn posting_to_running_session_keeps_status() {
    let mut store = SessionStore::new();
    store.insert_session(String::from("s"), minimal_session("s", SessionStatus::Running { progress: None }));
    assert!(store.post_user_message_at("s", String::from("hi"), vec![], String::from("e1"), 7)); 
    let s = store.get_session("s").unwrap();
    assert_eq!(s.status, SessionStatus::Running { progress: None });
    assert_eq!(s.history[0].id, "e1");
    assert_eq!(s.history[0].timestamp, 7);
}

#[test]
fn test_terminate_removes_session_state() {
    let mut store = SessionStore::new();
    store.insert_session(String::from("test-session-1"), minimal_session("test-session-1", SessionStatus::Running { progress: None }));
    let removed = store.remove_session("test-session-1");
    assert!(removed.is_some());
    assert!(store.get_session("test-session-1").is_none());
    assert_eq!(store.len(), 0);
}

#[test]
fn test_terminate_non_existent_session() {
    let mut store = SessionStore::new();
    store.insert_session(String::from("other"), minimal_session("other", SessionStatus::Pending));
    let removed = store.remove_session("non-existent-session");
    assert!(removed.is_none());
    assert_eq!(store.len(), 1);
    assert!(store.get_session("other").is_some());
}

#[test]
fn test_handle_save_context_success() {
    let mut store = SessionStore::new();
    store.insert_session(String::from("s"), minimal_session("s", SessionStatus::Running { progress: None }));
    let params = ToolParameters::SaveContext { content: String::from("Test data"), source: Some(String::from("test")) };
    let result = store.handle_save_context(params, "s");
    assert_eq!(result, Ok(String::from("Context saved successfully.")));
    let s = store.get_session("s").unwrap();
    assert_eq!(s.context.len(), 1);
    assert_eq!(s.context[0].content, "Test data");
    assert_eq!(s.context[0].source, Some(String::from("test")));
}

#[test]
fn test_handle_save_context_session_not_found() {
    let mut store = SessionStore::new();
    let params = ToolParameters::SaveContext { content: String::from("Test data"), source: None };
    let result = store.handle_save_context(params, "missing");
    assert!(result.is_err());
    assert!(result.unwrap_err().contains("not found for saving context"));
}

#[test]
fn test_handle_save_context_missing_content() {
    let mut store = SessionStore::new();
    store.insert_session(String::from("s"), minimal_session("s", SessionStatus::Pending));
    let params = ToolParameters::Search { query: String::from("wrong type") };
    let result = store.handle_save_context(params, "s");
    assert_eq!(result, Err(String::from("Invalid parameters provided for save_context tool.")));
    assert!(store.get_session("s").unwrap().context.is_empty());
}

#[test]
fn test_load_session_state_success() {
    let mut store = SessionStore::new();
    let request = LoadSessionRequest {
        user_id: String::from("u"),
        status: SessionStatus::AwaitingInput,
        config: default_session_config(),
        history: vec![user_entry("Loaded message")],
        context: vec![ContextEntry { content: String::from("Loaded context"), source: Some(String::from("loaded_source.txt")), timestamp: 3 }],
        research_goal: Some(String::from("Loaded goal")),
        system_message: Some(String::from("Loaded system prompt")),
        messages: vec![],
    };
    let id = store.load_session(request);
    assert!(uuid::Uuid::parse_str(&id).is_ok());
    let s = store.get_session(&id).unwrap();
    assert_eq!(s.status, SessionStatus::AwaitingInput);
    assert_eq!(s.history[0].message, "Loaded message");
    assert_eq!(s.context[0].source, Some(String::from("loaded_source.txt")));
    assert_eq!(s.research_goal, Some(String::from("Loaded goal")));
    assert_eq!(s.system_message, Some(String::from("Loaded system prompt")));
    assert_eq!(s.session_id, id);
}

#[test]
fn status_report_counts_down_and_expires() {
    let mut store = SessionStore::new();
    store.insert_session(String::from("s"), minimal_session("s", SessionStatus::Pending));
    let r = store.status_report_at("s", 10, 5_000).unwrap();
    assert_eq!(r.session_id, "s");
    assert_eq!(r.status, SessionStatus::Pending);
    assert_eq!(r.time_remaining_ms, Some(6_000));
    let r2 = store.status_report_at("s", 10, 11_000).unwrap();
    assert_eq!(r2.time_remaining_ms, None);
    assert!(store.status_report_at("missing", 10, 0).is_none());
}

#[test]
fn test_get_session_state_success() {
    let mut store = SessionStore::new();
    let mut config = default_session_config();
    config.initial_instruction = Some("Test instruction".to_string());
    let session_id = store.create_session(String::from("u"), config);
    assert!(store.update_status(&session_id, SessionStatus::Completed).is_ok());
    let upper = session_id.to_uppercase();
    let found = store.lookup_session(&upper).expect("session is found by any spelling of its UUID");
    assert_eq!(found.session_id, session_id);
    assert_eq!(found.status, SessionStatus::Completed);
    assert!(found.history.is_empty());
    assert_eq!(found.research_goal, Some("Test instruction".to_string()));
}

#[test]
fn test_get_session_state_not_found() {
    let store = SessionStore::new();
    let non_existent_id = uuid::Uuid::new_v4().to_string();
    assert_eq!(store.lookup_session(&non_existent_id), Err(SessionLookupError::NotFound));
}

#[test]
fn test_get_session_state_invalid_id_format() {
    let store = SessionStore::new();
    assert_eq!(store.lookup_session("not-a-uuid"), Err(SessionLookupError::InvalidId));
}

#[test]
fn other_sessions_are_left_alone() {
    let mut store = SessionStore::new();
    store.insert_session(String::from("a"), minimal_session("a", SessionStatus::Pending));
    store.insert_session(String::from("b"), minimal_session("b", SessionStatus::Pending));
    let b_before = store.get_session("b").unwrap().clone();
    assert!(store.update_status_at("a", SessionStatus::Error, 9).is_ok());
    assert!(store.add_conversation_entry_at("a", user_entry("x"), 10).is_ok());
    assert_eq!(store.get_session("b").unwrap(), &b_before);
    assert_eq!(store.len(), 2);
}

#[test]
fn prompt_ends_with_the_entry_just_added() {
    let mut store = SessionStore::new();
    store.insert_session(String::from("s"), minimal_session("s", SessionStatus::Pending));
    assert!(store.add_conversation_entry_at("s", user_entry("first"), 1).is_ok());
    assert!(store.add_conversation_entry_at("s", user_entry("latest question"), 2).is_ok());
    let prompt = agentloop::prompt::build_llm_prompt(store.get_session("s").unwrap()).unwrap();
    assert_eq!(prompt.len(), 1 + 2);
    let last = prompt.last().unwrap();
    assert_eq!(last.role, "user");
    assert_eq!(last.content, "latest question");
}
