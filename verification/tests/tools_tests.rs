use agentloop::keyed::KeyedList;
use agentloop::tools::{
    browse_outcome, browse_url, search_outcome, search_query, select_tool_handler, termination_event,
    tool_outcome_event, WebsocketEvent,
};
use agentloop::types::{FullToolResponse, ToolChoice, ToolParameters, UserToolFailure, UserToolResponse};

#[test]
fn test_dispatch_tool_not_found() {
    let handlers: KeyedList<u32> = KeyedList::new();
    let tool_choice = ToolChoice { name: String::from("non_existent_tool"), parameters: String::from("{\"query\":\"\"}") };
    let result = select_tool_handler(&handlers, &tool_choice);
    assert!(result.is_err());
    assert_eq!(result.unwrap_err(), "Tool 'non_existent_tool' not found.");
}

#[test]
fn test_dispatch_tool_success_dummy() {
    let mut handlers: KeyedList<u32> = KeyedList::new();
    handlers.insert(String::from("dummy_tool"), 7);
    handlers.insert(String::from("other"), 9);
    let choice = ToolChoice { name: String::from("dummy_tool"), parameters: String::from("{\"url\":\"dummy_url\"}") };
    assert_eq!(select_tool_handler(&handlers, &choice), Ok(&7));
    let outcome = Ok((
        FullToolResponse { tool_name: String::from("dummy_tool"), response: String::from("{\"url\":\"dummy_url\"}") },
        UserToolResponse { tool_name: String::from("dummy_tool"), summary: String::from("Dummy success summary") },
    ));
    assert_eq!(
        tool_outcome_event(&outcome),
        WebsocketEvent::ToolExecutionSuccess(UserToolResponse {
            tool_name: String::from("dummy_tool"),
            summary: String::from("Dummy success summary"),
        })
    );
}

#[test]
fn test_dispatch_tool_failure_dummy() {
    let outcome: Result<(FullToolResponse, UserToolResponse), String> = Err(String::from("Dummy failure"));
    assert_eq!(
        tool_outcome_event(&outcome),
        WebsocketEvent::ToolExecutionFailure(UserToolFailure { error: String::from("Dummy failure") })
    );
}

#[test]
fn test_handle_browse_missing_url() {
    let params = ToolParameters::Search { query: "test".to_string() };
    let result = browse_url(params);
    assert!(result.is_err());
    assert_eq!(result.unwrap_err(), "Invalid parameters provided for browse tool.");
}

#[test]
fn test_handle_browse_invalid_url_type() {
    let params = ToolParameters::SaveContext { content: "test".to_string(), source: None };
    let result = browse_url(params);
    assert_eq!(result, Err(String::from("Invalid parameters provided for browse tool.")));
    assert_eq!(browse_url(ToolParameters::Browse { url: String::from("https://x") }), Ok(String::from("https://x")));
    assert_eq!(browse_outcome(Err(String::from("403"))), Err(String::from("Zyte fetch_text failed: 403")));
}

#[test]
fn test_handle_search_placeholder() {
    assert_eq!(search_query(ToolParameters::Search { query: String::from("rust") }), Ok(String::from("rust")));
    assert_eq!(
        search_query(ToolParameters::Browse { url: String::from("u") }),
        Err(String::from("Invalid parameters provided for search tool."))
    );
    assert_eq!(search_outcome(Ok(String::from("hits"))), Ok(String::from("hits")));
    assert_eq!(search_outcome(Err(String::from("quota"))), Err(String::from("Serper search failed: quota")));
}

#[test]
fn terminate_event_names_the_session() {
    assert_eq!(
        termination_event("test-session-ws"),
        WebsocketEvent::SessionTerminated {
            session_id: String::from("test-session-ws"),
            reason: Some(String::from("Session terminated by request.")),
        }
    );
}

#[test]
fn keyed_list_reads_back_and_replaces() {
    let mut t: KeyedList<u32> = KeyedList::new();
    assert_eq!(t.insert(String::from("a"), 1), None);
    assert_eq!(t.insert(String::from("a"), 2), Some(1));
    assert_eq!(t.get("a"), Some(&2));
    assert!(t.contains_key("a"));
    assert_eq!(t.len(), 1);
    assert_eq!(t.remove("a"), Some(2));
    assert_eq!(t.get("a"), None);
    assert_eq!(t.keys(), Vec::<String>::new());
}

fn dummy_save_context_handler(choice: &ToolChoice) -> Result<(FullToolResponse, UserToolResponse), String> {
    let parsed: serde_json::Value = serde_json::from_str(&choice.parameters).map_err(|e| e.to_string())?;
    let content_to_save = parsed.get("content").and_then(|v| v.as_str()).unwrap_or_default().to_string();
    let mut props = serde_json::Map::new();
    props.insert(String::from("content_length"), serde_json::Value::from(content_to_save.len()));
    props.insert(String::from("status"), serde_json::Value::from("saved"));
    let full = FullToolResponse { tool_name: choice.name.clone(), response: serde_json::Value::Object(props).to_string() };
    let user = UserToolResponse {
        tool_name: choice.name.clone(),
        summary: format!("Content of length {} saved.", content_to_save.len()),
    };
    Ok((full, user))
}

#[test]
fn test_dispatch_save_context_via_dummy_handler() {
    type Handler = fn(&ToolChoice) -> Result<(FullToolResponse, UserToolResponse), String>;
    let mut handlers: KeyedList<Handler> = KeyedList::new();
    handlers.insert(String::from("save_context"), dummy_save_context_handler as Handler);
    let choice = ToolChoice {
        name: String::from("save_context"),
        parameters: String::from("{\"content\":\"Test data\",\"source\":\"test_source\"}"),
    };
    let handler = select_tool_handler(&handlers, &choice).unwrap();
    let result = handler(&choice);
    assert!(result.is_ok());
    let (full_resp, user_resp) = result.unwrap();
    assert_eq!(full_resp.tool_name, "save_context");
    let response: serde_json::Value = serde_json::from_str(&full_resp.response).unwrap();
    assert_eq!(response.get("content_length"), Some(&serde_json::Value::from(9)));
    assert_eq!(user_resp.summary, "Content of length 9 saved.");
}

#[test]
fn start_event_shows_the_parameters() {
    let choice = ToolChoice { name: String::from("search"), parameters: String::from("{\"query\":\"rust\"}") };
    assert_eq!(
        agentloop::tools::tool_start_event(&choice),
        WebsocketEvent::ToolExecutionStarted {
            tool_name: String::from("search"),
            message: String::from("Starting tool with parameters: {\"query\":\"rust\"}"),
        }
    );
}
