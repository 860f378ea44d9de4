//! Data carried by research sessions: conversation entries, tool choices,
//! session status and configuration, and the records that pass between the
//! agent, its tools and the language model.
//!
//! Instants are milliseconds since the Unix epoch (UTC); identifiers are the
//! text of a UUID; JSON documents are held as their serialized text.

use vstd::prelude::*;

verus! {

broadcast use vstd::string::group_string_axioms;

/// Who produced a conversation entry.
#[derive(Debug, Clone, Copy, PartialEq, Eq, Structural)]
pub enum Sender {
    User,
    Agent,
    Tool,
    System,
    Assistant,
}

impl Sender {
    /// The variant's name, as `{:?}` prints it.
    pub open spec fn spec_name(self) -> Seq<char> {
        match self {
            Sender::User => "User"@,
            Sender::Agent => "Agent"@,
            Sender::Tool => "Tool"@,
            Sender::System => "System"@,
            Sender::Assistant => "Assistant"@,
        }
    }

    /// The variant's name, as `{:?}` prints it.
    pub fn name(&self) -> (r: String)
        ensures
            r@ == self.spec_name(),
    {
        proof {
            reveal_strlit("User");
            reveal_strlit("Agent");
            reveal_strlit("Tool");
            reveal_strlit("System");
            reveal_strlit("Assistant");
        }
        match self {
            Sender::User => String::from_str("User"),
            Sender::Agent => String::from_str("Agent"),
            Sender::Tool => String::from_str("Tool"),
            Sender::System => String::from_str("System"),
            Sender::Assistant => String::from_str("Assistant"),
        }
    }
}

/// Lifecycle state of a research session.
#[derive(Debug, Clone, PartialEq, Eq)]
pub enum SessionStatus {
    Created,
    Pending,
    Running { progress: Option<String> },
    AwaitingInput,
    Completed,
    Error,
    Timeout,
    Interrupted,
}

impl SessionStatus {
    /// The name of a status without data, as `{:?}` prints it.
    pub open spec fn spec_unit_name(self) -> Seq<char> {
        match self {
            SessionStatus::Created => "Created"@,
            SessionStatus::Pending => "Pending"@,
            SessionStatus::Running { .. } => "Running"@,
            SessionStatus::AwaitingInput => "AwaitingInput"@,
            SessionStatus::Completed => "Completed"@,
            SessionStatus::Error => "Error"@,
            SessionStatus::Timeout => "Timeout"@,
            SessionStatus::Interrupted => "Interrupted"@,
        }
    }

    /// A session in one of these states takes a new user message as a
    /// restart of the conversation.
    pub open spec fn spec_is_resumable(self) -> bool {
        match self {
            SessionStatus::Completed | SessionStatus::Timeout | SessionStatus::Error
            | SessionStatus::AwaitingInput | SessionStatus::Interrupted => true,
            _ => false,
        }
    }

    /// The status's name, as `{:?}` prints a status without data.
    pub fn unit_name(&self) -> (r: String)
        ensures
            r@ == self.spec_unit_name(),
    {
        match self {
            SessionStatus::Created => String::from_str("Created"),
            SessionStatus::Pending => String::from_str("Pending"),
            SessionStatus::Running { .. } => String::from_str("Running"),
            SessionStatus::AwaitingInput => String::from_str("AwaitingInput"),
            SessionStatus::Completed => String::from_str("Completed"),
            SessionStatus::Error => String::from_str("Error"),
            SessionStatus::Timeout => String::from_str("Timeout"),
            SessionStatus::Interrupted => String::from_str("Interrupted"),
        }
    }

    /// A copy of the status.
    pub fn duplicate(&self) -> (r: SessionStatus)
        ensures
            r == *self,
    {
        match self {
            SessionStatus::Created => SessionStatus::Created,
            SessionStatus::Pending => SessionStatus::Pending,
            SessionStatus::Running { progress } => SessionStatus::Running { progress: crate::text::copy_opt(progress) },
            SessionStatus::AwaitingInput => SessionStatus::AwaitingInput,
            SessionStatus::Completed => SessionStatus::Completed,
            SessionStatus::Error => SessionStatus::Error,
            SessionStatus::Timeout => SessionStatus::Timeout,
            SessionStatus::Interrupted => SessionStatus::Interrupted,
        }
    }

    /// See `spec_is_resumable`.
    pub fn is_resumable(&self) -> (r: bool)
        ensures
            r == self.spec_is_resumable(),
    {
        match self {
            SessionStatus::Completed | SessionStatus::Timeout | SessionStatus::Error
            | SessionStatus::AwaitingInput | SessionStatus::Interrupted => true,
            _ => false,
        }
    }
}

/// A tool the model asked for, with its parameters as JSON text.
#[derive(Debug, Clone, PartialEq, Eq)]
pub struct ToolChoice {
    pub name: String,
    pub parameters: String,
}

impl ToolChoice {
    /// A field-by-field copy.
    pub fn duplicate(&self) -> (r: ToolChoice)
        ensures
            r == *self,
    {
        ToolChoice { name: self.name.clone(), parameters: self.parameters.clone() }
    }
}

/// Copies a list of tool choices.
pub fn duplicate_choices(v: &Vec<ToolChoice>) -> (r: Vec<ToolChoice>)
    ensures
        r@ == v@,
{
    let mut out: Vec<ToolChoice> = Vec::new();
    let mut i: usize = 0;
    while i < v.len()
        invariant
            i <= v.len(),
            out@ == v@.take(i as int),
        decreases v.len() - i,
    {
        out.push(v[i].duplicate());
        assert(v@.take(i + 1) =~= v@.take(i as int).push(v@[i as int]));
        i = i + 1;
    }
    assert(v@.take(v.len() as int) =~= v@);
    out
}

/// Parameters of the built-in tools.
#[derive(Debug, Clone, PartialEq, Eq)]
pub enum ToolParameters {
    Search { query: String },
    Browse { url: String },
    SaveContext { content: String, source: Option<String> },
}

/// What a tool gave back, kept for the conversation history.
#[derive(Debug, Clone, PartialEq, Eq)]
pub struct FullToolResponse {
    pub tool_name: String,
    /// The tool's output as JSON text.
    pub response: String,
}

/// Short account of a tool's success, for the user.
#[derive(Debug, Clone, PartialEq, Eq)]
pub struct UserToolResponse {
    pub tool_name: String,
    pub summary: String,
}

/// Account of a tool's failure.
#[derive(Debug, Clone, PartialEq, Eq)]
pub struct UserToolFailure {
    pub error: String,
}

/// Outcome of a tool call as stored in history.
#[derive(Debug, Clone, PartialEq, Eq)]
pub enum ToolResponse {
    Success(FullToolResponse),
    Failure(UserToolFailure),
}

/// Text document attached to a message.
#[derive(Debug, Clone, PartialEq, Eq)]
pub struct TextAttachment {
    pub content: String,
}

/// PDF document attached to a message.
#[derive(Debug, Clone, PartialEq, Eq)]
pub struct PdfAttachment {
    pub data: Vec<u8>,
    pub filename: Option<String>,
}

/// Kind and payload of an attachment.
#[derive(Debug, Clone, PartialEq, Eq)]
pub enum AttachmentType {
    Text(TextAttachment),
    Pdf(PdfAttachment),
}

/// A document attached to a user message.
#[derive(Debug, Clone, PartialEq, Eq)]
pub struct Attachment {
    pub title: Option<String>,
    pub kind: AttachmentType,
}

/// One entry of a session's conversation history.
#[derive(Debug, Clone, PartialEq, Eq)]
pub struct ConversationEntry {
    pub id: String,
    pub parent_id: Option<String>,
    pub depth: u32,
    pub sender: Sender,
    pub message: String,
    pub timestamp: i64,
    pub tools: Vec<ToolChoice>,
    pub attachments: Vec<Attachment>,
    pub tool_choice: Option<ToolChoice>,
    pub tool_response: Option<ToolResponse>,
}

impl ConversationEntry {
    /// A top-level entry with no tools and no attachments.
    pub fn plain(id: String, sender: Sender, message: String, timestamp: i64) -> (r: ConversationEntry)
        ensures
            r.id == id,
            r.parent_id is None,
            r.depth == 0,
            r.sender == sender,
            r.message == message,
            r.timestamp == timestamp,
            r.tools@.len() == 0,
            r.attachments@.len() == 0,
            r.tool_choice is None,
            r.tool_response is None,
    {
        ConversationEntry {
            id,
            parent_id: None,
            depth: 0,
            sender,
            message,
            timestamp,
            tools: Vec::new(),
            attachments: Vec::new(),
            tool_choice: None,
            tool_response: None,
        }
    }
}

/// Context gathered during research.
#[derive(Debug, Clone, PartialEq, Eq)]
pub struct ContextEntry {
    pub content: String,
    pub source: Option<String>,
    pub timestamp: i64,
}

/// A chat message in the form the language model takes.
#[derive(Debug, Clone, PartialEq, Eq)]
pub struct Message {
    pub role: String,
    pub content: String,
    pub attachments: Vec<Attachment>,
}

impl Message {
    /// A message with the given role and no attachments.
    pub open spec fn spec_with_role(role: Seq<char>, content: Seq<char>, m: Message) -> bool {
        m.role@ == role && m.content@ == content && m.attachments@.len() == 0
    }

    /// A system message.
    pub fn system(content: String) -> (r: Message)
        ensures
            Message::spec_with_role("system"@, content@, r),
    {
        proof {
            reveal_strlit("system");
        }
        Message { role: String::from_str("system"), content, attachments: Vec::new() }
    }

    /// A user message.
    pub fn user(content: String) -> (r: Message)
        ensures
            Message::spec_with_role("user"@, content@, r),
    {
        proof {
            reveal_strlit("user");
        }
        Message { role: String::from_str("user"), content, attachments: Vec::new() }
    }

    /// An assistant message.
    pub fn assistant(content: String) -> (r: Message)
        ensures
            Message::spec_with_role("assistant"@, content@, r),
    {
        proof {
            reveal_strlit("assistant");
        }
        Message { role: String::from_str("assistant"), content, attachments: Vec::new() }
    }
}

/// How much history is kept when compacting.
#[derive(Debug, Clone, Copy, PartialEq, Eq, Structural)]
pub struct CompactionPolicy {
    pub keep_last: usize,
    pub summary_length: usize,
}

impl Default for CompactionPolicy {
    fn default() -> (r: Self)
        ensures
            r.keep_last == 0,
            r.summary_length == 0,
    {
        CompactionPolicy { keep_last: 0, summary_length: 0 }
    }
}

/// How context is evaluated; no settings yet.
#[derive(Debug, Clone, Copy, PartialEq, Eq, Structural)]
pub struct EvaluationPolicy {}

impl Default for EvaluationPolicy {
    fn default() -> (r: Self) {
        EvaluationPolicy {}
    }
}

/// A span of time as `std::time::Duration` holds it.
#[derive(Debug, Clone, Copy, PartialEq, Eq, Structural)]
pub struct TimeLimit {
    secs: u64,
    nanos: u32,
}

impl TimeLimit {
    #[verifier::type_invariant]
    closed spec fn nanos_below_second(self) -> bool {
        self.nanos < 1_000_000_000
    }

    /// Whole seconds.
    pub closed spec fn spec_secs(self) -> nat {
        self.secs as nat
    }

    /// Nanoseconds beyond the whole seconds.
    pub closed spec fn spec_subsec_nanos(self) -> nat {
        self.nanos as nat
    }

    /// Total length in nanoseconds.
    pub open spec fn spec_total_nanos(self) -> int {
        (self.spec_secs() * 1_000_000_000 + self.spec_subsec_nanos()) as int
    }

    /// A limit of whole seconds.
    pub fn from_secs(secs: u64) -> (r: TimeLimit)
        ensures
            r.spec_secs() == secs,
            r.spec_subsec_nanos() == 0,
    {
        TimeLimit { secs, nanos: 0 }
    }

    /// A limit from seconds and nanoseconds; nanoseconds beyond a second carry
    /// into the seconds, as `Duration::new` does.
    pub fn new(secs: u64, nanos: u32) -> (r: TimeLimit)
        requires
            secs + nanos / 1_000_000_000 <= u64::MAX,
        ensures
            r.spec_total_nanos() == secs * 1_000_000_000 + nanos,
    {
        let carry = (nanos / 1_000_000_000) as u64;
        TimeLimit { secs: secs + carry, nanos: nanos % 1_000_000_000 }
    }

    /// Whole seconds.
    pub fn as_secs(&self) -> (r: u64)
        ensures
            r == self.spec_secs(),
    {
        self.secs
    }

    /// Nanoseconds beyond the whole seconds.
    pub fn subsec_nanos(&self) -> (r: u32)
        ensures
            r == self.spec_subsec_nanos(),
            r < 1_000_000_000,
    {
        proof {
            use_type_invariant(self);
        }
        self.nanos
    }
}

/// Settings of one research session.
#[derive(Debug, Clone, PartialEq, Eq)]
pub struct SessionConfig {
    pub time_limit: TimeLimit,
    pub token_threshold: usize,
    pub preserve_exchanges: usize,
    pub initial_instruction: Option<String>,
    pub compaction_policy: CompactionPolicy,
    pub evaluation_policy: EvaluationPolicy,
}

/// A tool the model may call: name, description and parameter schema (JSON text).
#[derive(Debug, Clone, PartialEq, Eq)]
pub struct ToolDefinition {
    pub name: String,
    pub description: String,
    pub parameters_json_schema: String,
}

/// Everything known about one research session.
#[derive(Debug, Clone, PartialEq, Eq)]
pub struct SessionData {
    pub user_id: String,
    pub session_id: String,
    pub status: SessionStatus,
    pub config: SessionConfig,
    pub history: Vec<ConversationEntry>,
    pub context: Vec<ContextEntry>,
    pub research_goal: Option<String>,
    pub created_at: i64,
    pub last_activity_timestamp: i64,
    pub messages: Vec<Message>,
    pub system_message: Option<String>,
    pub tool_definitions: Vec<ToolDefinition>,
}

/// The structured reply of the language model for one turn.
#[derive(Debug, Clone, PartialEq, Eq)]
pub struct LlmAgentResponse {
    pub user_answer: String,
    pub agent_reasoning: String,
    pub actions: Vec<ToolChoice>,
    pub is_final: bool,
    pub title: Option<String>,
}

} // verus!
