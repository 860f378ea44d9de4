//! How the agent reads a request: intent, platform, content type, urgency
//! and sentiment, each decided by the words the lower-cased message holds.

use vstd::prelude::*;
use crate::text::seq_contains;

verus! {

/// What the user wants.
#[derive(Debug, Clone, Copy, PartialEq, Eq, Structural)]
pub enum Intent {
    GenerateContent,
    PostContent,
    ConfigurePlatform,
    Help,
    GeneralChat,
}

/// How soon the user wants it.
#[derive(Debug, Clone, Copy, PartialEq, Eq, Structural)]
pub enum Urgency {
    High,
    Medium,
    Low,
}

/// The tone of the request.
#[derive(Debug, Clone, Copy, PartialEq, Eq, Structural)]
pub enum Sentiment {
    Positive,
    Neutral,
    Negative,
}

/// A request to the agent.
#[derive(Debug, Clone, PartialEq, Eq)]
pub struct AgentRequest {
    pub message: String,
    pub session_id: String,
    pub platform: Option<String>,
    pub content_type: Option<String>,
}

/// The agent's reading of a request.
#[derive(Debug, Clone, PartialEq, Eq)]
pub struct RequestAnalysis {
    pub intent: Intent,
    pub platform: Option<String>,
    pub content_type: Option<String>,
    pub urgency: Urgency,
    pub sentiment: Sentiment,
}

/// Details attached to an action, rendered as JSON by the host.
#[derive(Debug, Clone, PartialEq, Eq)]
pub struct ActionMetadata {
    pub content_type: Option<String>,
    pub urgency: Urgency,
    pub sentiment: Sentiment,
}

/// Something the agent proposes to do.
#[derive(Debug, Clone, PartialEq, Eq)]
pub struct AgentAction {
    pub action_type: String,
    pub platform: Option<String>,
    pub content: Option<String>,
    pub metadata: ActionMetadata,
}

/// The agent's reply.
#[derive(Debug, Clone, PartialEq, Eq)]
pub struct AgentResponse {
    pub response: String,
    pub session_id: String,
    pub suggestions: Vec<String>,
    pub actions: Vec<AgentAction>,
}

/// `m` holds the word `w`.
pub open spec fn has(m: Seq<char>, w: &str) -> bool {
    seq_contains(m, w@)
}

/// The intent a (lower-cased) message shows.
pub open spec fn intent_of(m: Seq<char>) -> Intent {
    if has(m, "generate") || has(m, "create") || has(m, "write") {
        Intent::GenerateContent
    } else if has(m, "post") || has(m, "publish") || has(m, "share") {
        Intent::PostContent
    } else if has(m, "configure") || has(m, "setup") || has(m, "connect") {
        Intent::ConfigurePlatform
    } else if has(m, "help") || has(m, "how") || has(m, "what") {
        Intent::Help
    } else {
        Intent::GeneralChat
    }
}

/// The platform a message names, if any.
pub open spec fn platform_named(m: Seq<char>) -> Option<Seq<char>> {
    if has(m, "linkedin") {
        Some("linkedin"@)
    } else if has(m, "twitter") {
        Some("twitter"@)
    } else if has(m, "facebook") {
        Some("facebook"@)
    } else if has(m, "instagram") {
        Some("instagram"@)
    } else if has(m, "email") {
        Some("email"@)
    } else {
        None
    }
}

/// The content type a message names, a post by default.
pub open spec fn content_type_named(m: Seq<char>) -> Seq<char> {
    if has(m, "post") {
        "post"@
    } else if has(m, "story") {
        "story"@
    } else if has(m, "email") {
        "email"@
    } else if has(m, "caption") {
        "caption"@
    } else {
        "post"@
    }
}

/// The urgency a message shows.
pub open spec fn urgency_of(m: Seq<char>) -> Urgency {
    if has(m, "urgent") || has(m, "asap") || has(m, "immediately") {
        Urgency::High
    } else if has(m, "soon") || has(m, "quickly") {
        Urgency::Medium
    } else {
        Urgency::Low
    }
}

/// The sentiment a message shows.
pub open spec fn sentiment_of(m: Seq<char>) -> Sentiment {
    if has(m, "happy") || has(m, "excited") || has(m, "great") {
        Sentiment::Positive
    } else if has(m, "sad") || has(m, "disappointed") || has(m, "bad") {
        Sentiment::Negative
    } else {
        Sentiment::Neutral
    }
}

/// An explicit choice wins over what the message says.
pub open spec fn explicit_or(explicit: Option<String>, found: Option<Seq<char>>) -> Option<Seq<char>> {
    match explicit {
        Some(s) => Some(s@),
        None => found,
    }
}

/// The views of an optional string.
pub open spec fn opt_view(o: Option<String>) -> Option<Seq<char>> {
    match o {
        Some(s) => Some(s@),
        None => None,
    }
}

} // verus!
