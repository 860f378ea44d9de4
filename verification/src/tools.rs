//! Tool dispatch decisions and the records kept of tool calls.

use vstd::prelude::*;
use crate::keyed::KeyedList;
use crate::text::{concat, concat3};
use crate::types::{
    ConversationEntry, FullToolResponse, Sender, ToolChoice, ToolParameters, ToolResponse, UserToolFailure,
    UserToolResponse,
};

verus! {

broadcast use vstd::string::group_string_axioms;

/// Events pushed to the WebSocket clients of a session.
#[derive(Debug, Clone, PartialEq, Eq)]
pub enum WebsocketEvent {
    ReasoningUpdate(String),
    ResearchAnswer { title: String, content: String },
    ToolExecutionStarted { tool_name: String, message: String },
    ToolExecutionSuccess(UserToolResponse),
    ToolExecutionFailure(UserToolFailure),
    SessionTerminated { session_id: String, reason: Option<String> },
}

/// The handler registered for the chosen tool, or the error for an unknown
/// tool name.
pub fn select_tool_handler<'a, H>(handlers: &'a KeyedList<H>, choice: &ToolChoice) -> (r: Result<&'a H, String>)
    ensures
        match r {
            Ok(h) => handlers@.contains_key(choice.name@) && *h == handlers@[choice.name@],
            Err(e) => !handlers@.contains_key(choice.name@) && e@ == "Tool '"@ + choice.name@ + "' not found."@,
        },
{
    match handlers.get(choice.name.as_str()) {
        Some(h) => Ok(h),
        None => Err(concat3("Tool '", choice.name.as_str(), "' not found.")),
    }
}

/// The event that tells clients a tool is about to run, with its
/// parameters.
pub fn tool_start_event(choice: &ToolChoice) -> (r: WebsocketEvent)
    ensures
        r matches WebsocketEvent::ToolExecutionStarted { tool_name, message } && tool_name == choice.name && message@
            == "Starting tool with parameters: "@ + choice.parameters@,
{
    WebsocketEvent::ToolExecutionStarted {
        tool_name: choice.name.clone(),
        message: concat("Starting tool with parameters: ", choice.parameters.as_str()),
    }
}

/// The event that tells clients how a tool call ended.
pub fn tool_outcome_event(outcome: &Result<(FullToolResponse, UserToolResponse), String>) -> (r: WebsocketEvent)
    ensures
        match outcome {
            Ok((_, user)) => r == WebsocketEvent::ToolExecutionSuccess(*user),
            Err(e) => r == WebsocketEvent::ToolExecutionFailure(UserToolFailure { error: *e }),
        },
{
    match outcome {
        Ok((_, user)) => WebsocketEvent::ToolExecutionSuccess(
            UserToolResponse { tool_name: user.tool_name.clone(), summary: user.summary.clone() },
        ),
        Err(e) => WebsocketEvent::ToolExecutionFailure(UserToolFailure { error: e.clone() }),
    }
}

/// What a tool call gave: the handler's result, and that result serialized
/// as JSON (the full response on success, the failure record otherwise), or
/// the serializer's error.
#[derive(Debug, PartialEq, Eq)]
pub struct ToolCallOutcome {
    pub result: Result<(FullToolResponse, UserToolResponse), String>,
    pub serialized: Result<String, String>,
}

/// Text stored for a tool call: the serialized result, or a note that it
/// could not be serialized.
pub open spec fn tool_entry_text(succeeded: bool, serialized: Result<String, String>) -> Seq<char> {
    match serialized {
        Ok(j) => j@,
        Err(e) => if succeeded {
            "Tool succeeded, but FullToolResponse serialization failed: "@ + e@
        } else {
            "Tool failed, and UserToolFailure serialization failed: "@ + e@
        },
    }
}

/// The history entry that records a tool call.
pub open spec fn is_tool_entry(e: ConversationEntry, choice: ToolChoice, outcome: ToolCallOutcome, id: Seq<char>, now: i64) -> bool {
    &&& e.id@ == id
    &&& e.parent_id is None
    &&& e.depth == 0
    &&& e.timestamp == now
    &&& e.tools@ == seq![choice]
    &&& e.attachments@.len() == 0
    &&& e.tool_choice == Some(choice)
    &&& e.message@ == tool_entry_text(outcome.result is Ok, outcome.serialized)
    &&& match outcome.result {
        Ok((full, _)) => e.sender == Sender::Tool && e.tool_response == Some(ToolResponse::Success(full)),
        Err(err) => e.sender == Sender::System && e.tool_response == Some(
            ToolResponse::Failure(UserToolFailure { error: err }),
        ),
    }
}

/// Builds the history entry for a tool call: a `Tool` entry on success, a
/// `System` entry on failure.
pub fn tool_result_entry(choice: &ToolChoice, outcome: ToolCallOutcome, id: String, now: i64) -> (r: ConversationEntry)
    ensures
        is_tool_entry(r, *choice, outcome, id@, now),
{
    let ghost o = outcome;
    let succeeded = outcome.result.is_ok();
    let message = match outcome.serialized {
        Ok(j) => j,
        Err(e) => if succeeded {
            concat("Tool succeeded, but FullToolResponse serialization failed: ", e.as_str())
        } else {
            concat("Tool failed, and UserToolFailure serialization failed: ", e.as_str())
        },
    };
    let (sender, response) = match outcome.result {
        Ok((full, _)) => (Sender::Tool, ToolResponse::Success(full)),
        Err(err) => (Sender::System, ToolResponse::Failure(UserToolFailure { error: err })),
    };
    let mut tools: Vec<ToolChoice> = Vec::new();
    tools.push(choice.duplicate());
    assert(tools@ =~= seq![*choice]);
    ConversationEntry {
        id,
        parent_id: None,
        depth: 0,
        sender,
        message,
        timestamp: now,
        tools,
        attachments: Vec::new(),
        tool_choice: Some(choice.duplicate()),
        tool_response: Some(response),
    }
}

/// The query of a `search` call, or the error for other parameters.
pub fn search_query(params: ToolParameters) -> (r: Result<String, String>)
    ensures
        match params {
            ToolParameters::Search { query } => r == Ok::<String, String>(query),
            _ => r matches Err(e) && e@ == "Invalid parameters provided for search tool."@,
        },
{
    match params {
        ToolParameters::Search { query } => Ok(query),
        _ => Err(String::from_str("Invalid parameters provided for search tool.")),
    }
}

/// The URL of a `browse` call, or the error for other parameters.
pub fn browse_url(params: ToolParameters) -> (r: Result<String, String>)
    ensures
        match params {
            ToolParameters::Browse { url } => r == Ok::<String, String>(url),
            _ => r matches Err(e) && e@ == "Invalid parameters provided for browse tool."@,
        },
{
    match params {
        ToolParameters::Browse { url } => Ok(url),
        _ => Err(String::from_str("Invalid parameters provided for browse tool.")),
    }
}

/// The result of a search, or its failure in the agent's words.
pub fn search_outcome(result: Result<String, String>) -> (r: Result<String, String>)
    ensures
        match result {
            Ok(s) => r == Ok::<String, String>(s),
            Err(e) => r matches Err(m) && m@ == "Serper search failed: "@ + e@,
        },
{
    match result {
        Ok(s) => Ok(s),
        Err(e) => Err(concat("Serper search failed: ", e.as_str())),
    }
}

/// The text of a fetched page, or its failure in the agent's words.
pub fn browse_outcome(result: Result<String, String>) -> (r: Result<String, String>)
    ensures
        match result {
            Ok(s) => r == Ok::<String, String>(s),
            Err(e) => r matches Err(m) && m@ == "Zyte fetch_text failed: "@ + e@,
        },
{
    match result {
        Ok(s) => Ok(s),
        Err(e) => Err(concat("Zyte fetch_text failed: ", e.as_str())),
    }
}

/// The event sent to a session's clients when it is terminated.
pub fn termination_event(session_id: &str) -> (r: WebsocketEvent)
    ensures
        r matches WebsocketEvent::SessionTerminated { session_id: id, reason: Some(m) } && id@ == session_id@ && m@
            == "Session terminated by request."@,
{
    WebsocketEvent::SessionTerminated {
        session_id: String::from_str(session_id),
        reason: Some(String::from_str("Session terminated by request.")),
    }
}

} // verus!
