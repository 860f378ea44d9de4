use agentloop::prompt::build_llm_prompt;
use agentloop::types::{
    CompactionPolicy, ConversationEntry, EvaluationPolicy, Sender, SessionConfig, SessionData, SessionStatus,
    TimeLimit, ToolChoice, ToolDefinition,
};

fn entry(sender: Sender, message: &str, tools: Vec<ToolChoice>) -> ConversationEntry {
    ConversationEntry {
        id: String::from("00000000-0000-0000-0000-000000000001"),
        parent_id: None,
        depth: 0,
        sender,
        message: message.to_string(),
        timestamp: 1_700_000_000_000,
        tools,
        attachments: vec![],
        tool_choice: None,
        tool_response: None,
    }
}

fn create_test_session_data(
    history: Vec<ConversationEntry>,
    goal: Option<String>,
    tool_defs: Vec<ToolDefinition>,
) -> SessionData {
    SessionData {
        user_id: String::from("user"),
        session_id: "test-session".to_string(),
        research_goal: goal,
        status: SessionStatus::Running { progress: None },
        config: SessionConfig {
            time_limit: TimeLimit::from_secs(300),
            token_threshold: 1000,
            preserve_exchanges: 5,
            initial_instruction: None,
            compaction_policy: CompactionPolicy::default(),
            evaluation_policy: EvaluationPolicy::default(),
        },
        history,
        context: vec![],
        created_at: 1_700_000_000_000,
        last_activity_timestamp: 1_700_000_000_000,
        system_message: Some("Test System Prompt".to_string()),
        messages: vec![],
        tool_definitions: tool_defs,
    }
}

#[test]
fn test_build_prompt_with_history_and_goal() {
    let history = vec![
        entry(Sender::User, "What is Bounti.ai?", vec![]),
        entry(Sender::Agent, "Bounti.ai helps with GTM strategy.", vec![]),
        entry(Sender::User, "Who is the CEO?", vec![]),
    ];
    let session_data = create_test_session_data(history, Some("Find Bounti.ai CEO".to_string()), vec![]);
    let result = build_llm_prompt(&session_data);
    assert!(result.is_ok());
    let messages = result.unwrap();
    assert_eq!(messages.len(), 3 + 2);
    assert_eq!(messages[0].role, "system");
    assert_eq!(messages[0].content, "Test System Prompt");
    assert_eq!(messages[1].role, "system");
    assert!(messages[1].content.contains("Find Bounti.ai CEO"));
    assert_eq!(messages[2].role, "user");
    assert_eq!(messages[2].content, "What is Bounti.ai?");
    assert_eq!(messages[3].role, "assistant");
    assert_eq!(messages[3].content, "Bounti.ai helps with GTM strategy.");
    assert_eq!(messages[4].role, "user");
    assert_eq!(messages[4].content, "Who is the CEO?");
}

#[test]
fn test_build_prompt_empty_history_fails() {
    let session_data = create_test_session_data(vec![], None, vec![]);
    let result = build_llm_prompt(&session_data);
    assert!(result.is_err());
    assert_eq!(result.unwrap_err(), "Cannot build prompt: Conversation history is empty.");
}

#[test]
fn test_build_prompt_includes_tool_results() {
    let history = vec![
        entry(Sender::User, "Search for Bounti", vec![]),
        entry(
            Sender::Agent,
            "Searching...",
            vec![ToolChoice { name: "search".to_string(), parameters: "{\"query\":\"Bounti\"}".to_string() }],
        ),
        entry(Sender::Tool, "Search Result: Bounti is mentioned on website X.", vec![]),
        entry(Sender::User, "Thanks", vec![]),
    ];
    let session_data = create_test_session_data(history, None, vec![]);
    let result = build_llm_prompt(&session_data);
    assert!(result.is_ok());
    let messages = result.unwrap();
    assert_eq!(messages.len(), 4 + 1);
    assert_eq!(messages[3].role, "system");
    assert!(messages[3].content.contains("Tool Result:"));
    assert!(messages[3].content.contains("Bounti is mentioned"));
    assert_eq!(messages[4].role, "user");
}

#[test]
fn test_default_system_prompt_dynamic_tools() {
    let mut session_data = create_test_session_data(
        vec![entry(Sender::User, "Hi", vec![])],
        None,
        vec![
            ToolDefinition {
                name: "test_tool_1".to_string(),
                description: "Description for test tool 1".to_string(),
                parameters_json_schema: "{\"type\":\"object\",\"properties\":{\"param1\":{\"type\":\"string\"}}}"
                    .to_string(),
            },
            ToolDefinition {
                name: "test_tool_2".to_string(),
                description: "Description for test tool 2".to_string(),
                parameters_json_schema:
                    "{\"type\":\"object\",\"properties\":{\"paramA\":{\"type\":\"integer\"},\"paramB\":{\"type\":\"boolean\"}}}"
                        .to_string(),
            },
        ],
    );
    session_data.system_message = None;
    let result = build_llm_prompt(&session_data);
    assert!(result.is_ok());
    let messages = result.unwrap();
    println!("System prompt: {}", messages[0].content);
    assert!(!messages.is_empty());
    assert_eq!(messages[0].role, "system");
    assert!(messages[0].content.contains("Conversation Mode"));
    assert!(messages[0].content.contains("Deep Research Mode"));
    assert!(messages[0].content.contains(
        "- test_tool_1: Description for test tool 1 Parameters: {\"type\":\"object\",\"properties\":{\"param1\":{\"type\":\"string\"}}}"
    ));
    assert!(messages[0].content.contains("- test_tool_2: Description for test tool 2 Parameters: {\"type\":\"object\",\"properties\":{\"paramA\":{\"type\":\"integer\"},\"paramB\":{\"type\":\"boolean\"}}}"));
    assert!(!messages[0].content.contains("- search: { \"tool_name\": \"Search\""));
    assert!(!messages[0].content.contains("- browse: { \"tool_name\": \"Browse\""));
    assert!(!messages[0].content.contains("- save_context: { \"tool_name\": \"SaveContext\""));
    assert!(!messages[0].content.contains("- <external tools>:"));
    assert!(messages[0].content.contains("To call a tool, return exactly JSON:"));
}

#[test]
fn test_default_system_prompt_no_tools() {
    let mut session_data = create_test_session_data(vec![entry(Sender::User, "Hi", vec![])], None, vec![]);
    session_data.system_message = None;
    let result = build_llm_prompt(&session_data);
    assert!(result.is_ok());
    let messages = result.unwrap();
    assert!(!messages.is_empty());
    assert_eq!(messages[0].role, "system");
    assert!(messages[0].content.contains("Conversation Mode"));
    assert!(messages[0].content.contains("Deep Research Mode"));
    assert!(messages[0].content.contains("(No tools are currently configured for your use in this session.)"));
    assert!(messages[0].content.contains("To call a tool, return exactly JSON:"));
}

#[test]
fn agent_entry_with_tools_lists_proposed_actions() {
    let history = vec![entry(
        Sender::Agent,
        "Looking",
        vec![
            ToolChoice { name: "search".to_string(), parameters: "{\"query\":\"a\"}".to_string() },
            ToolChoice { name: "browse".to_string(), parameters: "{\"url\":\"b\"}".to_string() },
        ],
    )];
    let session_data = create_test_session_data(history, Some("Goal".to_string()), vec![]);
    let messages = build_llm_prompt(&session_data).unwrap();
    assert_eq!(messages.len(), 3);
    assert_eq!(messages[1].content, "Current Research Goal: Goal");
    assert_eq!(messages[2].role, "assistant");
    assert_eq!(
        messages[2].content,
        "Looking\\n\\n*Agent proposed actions:*\\n- tool execution {\"query\":\"a\"}\\n- tool execution {\"url\":\"b\"}"
    );
}

#[test]
fn system_and_assistant_entries_keep_their_text() {
    let history = vec![
        entry(Sender::System, "Summary of earlier conversation: x", vec![]),
        entry(Sender::Assistant, "Plain answer", vec![]),
        entry(Sender::Tool, "result", vec![]),
    ];
    let session_data = create_test_session_data(history, None, vec![]);
    let messages = build_llm_prompt(&session_data).unwrap();
    assert_eq!(messages[1].role, "system");
    assert_eq!(messages[1].content, "Summary of earlier conversation: x");
    assert_eq!(messages[2].role, "assistant");
    assert_eq!(messages[2].content, "Plain answer");
    assert_eq!(messages[3].content, "*Tool Result:*\\nresult");
}
