//! Opening a research session from a client's request.

use vstd::prelude::*;
use crate::message_format::{format_message_with_attachments, framed_message};
use crate::platform::{new_uuid_text, now_millis, uuid_canonical_text};
use crate::session::{is_user_entry, SessionStore};
use crate::text::copy_opt;
use crate::types::{
    Attachment, CompactionPolicy, ConversationEntry, EvaluationPolicy, Sender, SessionConfig, SessionData, TimeLimit,
};

verus! {

broadcast use vstd::string::group_string_axioms;

/// A client's request to research something.
#[derive(Debug, Clone, PartialEq, Eq)]
pub struct ResearchRequest {
    pub user_id: String,
    pub instruction: String,
    pub attachments: Option<Vec<Attachment>>,
}

impl Default for SessionConfig {
    /// Five minutes, a thousand tokens, five exchanges kept, no instruction.
    fn default() -> (r: SessionConfig)
        ensures
            r.time_limit.spec_total_nanos() == 300 * 1_000_000_000,
            r.token_threshold == 1000,
            r.preserve_exchanges == 5,
            r.initial_instruction is None,
            r.compaction_policy.keep_last == 0,
            r.compaction_policy.summary_length == 0,
    {
        SessionConfig {
            time_limit: TimeLimit::from_secs(300),
            token_threshold: 1000,
            preserve_exchanges: 5,
            initial_instruction: None,
            compaction_policy: CompactionPolicy::default(),
            evaluation_policy: EvaluationPolicy::default(),
        }
    }
}

/// The configuration of a session opened by a research request: the
/// service's session timeout, a hundred thousand tokens, ten exchanges kept.
pub fn research_session_config(session_timeout_seconds: u64, instruction: String) -> (r: SessionConfig)
    ensures
        r.time_limit.spec_total_nanos() == session_timeout_seconds * 1_000_000_000,
        r.token_threshold == 100000,
        r.preserve_exchanges == 10,
        r.initial_instruction == Some(instruction),
        r.compaction_policy.keep_last == 0,
        r.compaction_policy.summary_length == 0,
{
    SessionConfig {
        time_limit: TimeLimit::from_secs(session_timeout_seconds),
        token_threshold: 100000,
        preserve_exchanges: 10,
        initial_instruction: Some(instruction),
        compaction_policy: CompactionPolicy::default(),
        evaluation_policy: EvaluationPolicy::default(),
    }
}

/// The configuration `run_research_task` uses: the defaults, with the
/// instruction set.
pub fn task_session_config(instruction: String) -> (r: SessionConfig)
    ensures
        r.time_limit.spec_total_nanos() == 300 * 1_000_000_000,
        r.token_threshold == 1000,
        r.preserve_exchanges == 5,
        r.initial_instruction == Some(instruction),
{
    let mut c = SessionConfig::default();
    c.initial_instruction = Some(instruction);
    c
}

/// The user's first entry in a research session.
pub fn initial_user_entry(content: String, attachments: Vec<Attachment>, id: String, now: i64) -> (r: ConversationEntry)
    ensures
        is_user_entry(r, id@, content@, attachments@, now),
{
    ConversationEntry {
        id,
        parent_id: None,
        depth: 0,
        sender: Sender::User,
        message: content,
        timestamp: now,
        tools: Vec::new(),
        attachments,
        tool_choice: None,
        tool_response: None,
    }
}

/// The opening of a research session, as it stands once the request is
/// handled: a new session whose history holds the framed instruction.
pub open spec fn is_opened_session(
    d: SessionData,
    user_id: Seq<char>,
    id: Seq<char>,
    config: SessionConfig,
    message: Seq<char>,
    attachments: Seq<Attachment>,
) -> bool {
    &&& d.user_id@ == user_id
    &&& d.session_id@ == id
    &&& d.status == crate::types::SessionStatus::Pending
    &&& d.config == config
    &&& d.context@.len() == 0
    &&& d.research_goal == config.initial_instruction
    &&& d.messages@.len() == 0
    &&& d.system_message is None
    &&& d.tool_definitions@.len() == 0
    &&& d.history@.len() == 1
    &&& is_user_entry(d.history@[0], d.history@[0].id@, message, attachments, d.history@[0].timestamp)
    &&& d.last_activity_timestamp == d.history@[0].timestamp
}

impl SessionStore {
    /// Opens a session for a research request under `session_id` at `now`:
    /// creates it with the research configuration and records the
    /// instruction, framed with the serialized attachments when given, as its
    /// first entry, with identifier `entry_id`.
    pub fn open_research_session_at(
        &mut self,
        request: ResearchRequest,
        attachments_json: Option<&str>,
        session_timeout_seconds: u64,
        session_id: String,
        entry_id: String,
        now: i64,
    )
        ensures
            final(self)@.remove(session_id@) == old(self)@.remove(session_id@),
            final(self)@.contains_key(session_id@),
            is_opened_session(
                final(self)@[session_id@],
                request.user_id@,
                session_id@,
                final(self)@[session_id@].config,
                framed_message(request.instruction@, match attachments_json {
                    Some(j) => Some(j@),
                    None => None,
                }),
                match request.attachments {
                    Some(a) => a@,
                    None => Seq::empty(),
                },
            ),
            final(self)@[session_id@].history@[0].id@ == entry_id@,
            final(self)@[session_id@].history@[0].timestamp == now,
            final(self)@[session_id@].created_at == now,
            final(self)@[session_id@].config.initial_instruction == Some(request.instruction),
            final(self)@[session_id@].config.token_threshold == 100000,
            final(self)@[session_id@].config.preserve_exchanges == 10,
            final(self)@[session_id@].config.time_limit.spec_total_nanos() == session_timeout_seconds * 1_000_000_000,
    {
        let ResearchRequest { user_id, instruction, attachments } = request;
        let config = research_session_config(session_timeout_seconds, instruction.clone());
        self.insert_new_session(session_id.clone(), user_id, config, now);
        let message = format_message_with_attachments(instruction.as_str(), attachments_json);
        let attachments = match attachments {
            Some(a) => a,
            None => Vec::new(),
        };
        let entry = initial_user_entry(message, attachments, entry_id, now);
        let added = self.add_conversation_entry_at(session_id.as_str(), entry, now);
        proof {
            assert(added is Ok);
            let d = final(self)@[session_id@];
            assert(d.history@ =~= seq![d.history@[0]]);
            assert(final(self)@.remove(session_id@) =~= old(self)@.remove(session_id@));
        }
    }

    /// Opens a session for a research request under a fresh random id, at
    /// the current time; gives back the new id.
    pub fn open_research_session(
        &mut self,
        request: ResearchRequest,
        attachments_json: Option<&str>,
        session_timeout_seconds: u64,
    ) -> (r: String)
        ensures
            uuid_canonical_text(r@) == Some(r@),
            final(self)@.remove(r@) == old(self)@.remove(r@),
            final(self)@.contains_key(r@),
            is_opened_session(
                final(self)@[r@],
                request.user_id@,
                r@,
                final(self)@[r@].config,
                framed_message(request.instruction@, match attachments_json {
                    Some(j) => Some(j@),
                    None => None,
                }),
                match request.attachments {
                    Some(a) => a@,
                    None => Seq::empty(),
                },
            ),
            final(self)@[r@].config.initial_instruction == Some(request.instruction),
            uuid_canonical_text(final(self)@[r@].history@[0].id@) == Some(final(self)@[r@].history@[0].id@),
            final(self)@[r@].history@[0].id@.len() == 36,
            final(self)@[r@].config.token_threshold == 100000,
            final(self)@[r@].config.preserve_exchanges == 10,
            final(self)@[r@].config.time_limit.spec_total_nanos() == session_timeout_seconds * 1_000_000_000,
    {
        let session_id = new_uuid_text();
        let entry_id = new_uuid_text();
        let now = now_millis();
        self.open_research_session_at(request, attachments_json, session_timeout_seconds, session_id.clone(), entry_id, now);
        session_id
    }
}

} // verus!
