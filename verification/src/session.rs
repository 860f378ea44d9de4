//! The table of research sessions and the operations that change it.
//!
//! Every operation that the agent performs on a session (creating it,
//! recording conversation and context, changing its status, loading a saved
//! state, taking a user message, removing it) is stated over the view
//! `Map<Seq<char>, SessionData>` keyed by session id.

use vstd::prelude::*;
use crate::keyed::KeyedList;
use crate::platform::{new_uuid_text, now_millis, parse_uuid, uuid_canonical_text};
use crate::text::{concat, concat3, copy_opt};
use crate::types::{
    Attachment, ContextEntry, ConversationEntry, Message, SessionConfig, SessionData, SessionStatus,
    ToolParameters,
};

verus! {

broadcast use vstd::string::group_string_axioms;

/// Text of the error for an unknown session id.
pub open spec fn not_found_text(id: Seq<char>) -> Seq<char> {
    "Session not found: "@ + id
}

/// A session as `create_session` makes it.
pub open spec fn is_new_session(
    d: SessionData,
    user_id: Seq<char>,
    session_id: Seq<char>,
    config: SessionConfig,
    now: i64,
) -> bool {
    &&& d.user_id@ == user_id
    &&& d.session_id@ == session_id
    &&& d.status == SessionStatus::Pending
    &&& d.config == config
    &&& d.history@.len() == 0
    &&& d.context@.len() == 0
    &&& d.research_goal == config.initial_instruction
    &&& d.created_at == now
    &&& d.last_activity_timestamp == now
    &&& d.messages@.len() == 0
    &&& d.system_message is None
    &&& d.tool_definitions@.len() == 0
}

/// `after` is `before` with only the fields named by the caller changed:
/// here, status and activity time.
pub open spec fn status_changed(before: SessionData, after: SessionData, status: SessionStatus, now: i64) -> bool {
    after == SessionData { status, last_activity_timestamp: now, ..before }
}

/// `after` is `before` with `entry` appended to its history and the activity
/// time set to `now`.
pub open spec fn entry_appended(before: SessionData, after: SessionData, entry: ConversationEntry, now: i64) -> bool {
    &&& after.history@ == before.history@.push(entry)
    &&& after == SessionData { history: after.history, last_activity_timestamp: now, ..before }
}

/// `after` is `before` with `entry` appended to its context and the activity
/// time set to `now`.
pub open spec fn context_appended(before: SessionData, after: SessionData, entry: ContextEntry, now: i64) -> bool {
    &&& after.context@ == before.context@.push(entry)
    &&& after == SessionData { context: after.context, last_activity_timestamp: now, ..before }
}

/// A user's entry as `post_message` records it.
pub open spec fn is_user_entry(
    e: ConversationEntry,
    id: Seq<char>,
    content: Seq<char>,
    attachments: Seq<Attachment>,
    now: i64,
) -> bool {
    &&& e.id@ == id
    &&& e.parent_id is None
    &&& e.depth == 0
    &&& e.sender == crate::types::Sender::User
    &&& e.message@ == content
    &&& e.timestamp == now
    &&& e.tools@.len() == 0
    &&& e.attachments@ == attachments
    &&& e.tool_choice is None
    &&& e.tool_response is None
}

/// `after` is `before` once the user posted `content`: a session in a finished or waiting state is set back to `Pending`
/// with the message as its new goal; the entry is appended to the history.
pub open spec fn user_message_posted(before: SessionData, after: SessionData, content: String) -> bool {
    &&& after.history@.len() == before.history@.len() + 1
    &&& after.history@.drop_last() == before.history@
    &&& if before.status.spec_is_resumable() {
        &&& after.status == SessionStatus::Pending
        &&& after.research_goal == Some(content)
        &&& after == SessionData { status: after.status, research_goal: after.research_goal, history: after.history, ..before }
    } else {
        after == SessionData { history: after.history, ..before }
    }
}

/// A previously saved session state, as a client sends it back.
#[derive(Debug, Clone, PartialEq, Eq)]
pub struct LoadSessionRequest {
    pub user_id: String,
    pub status: SessionStatus,
    pub config: SessionConfig,
    pub history: Vec<ConversationEntry>,
    pub context: Vec<ContextEntry>,
    pub research_goal: Option<String>,
    pub system_message: Option<String>,
    pub messages: Vec<Message>,
}

/// The session that loading `req` under `id` at `now` stores.
pub open spec fn is_loaded_session(d: SessionData, req: LoadSessionRequest, id: Seq<char>, now: i64) -> bool {
    &&& d.user_id == req.user_id
    &&& d.session_id@ == id
    &&& d.status == req.status
    &&& d.config == req.config
    &&& d.history == req.history
    &&& d.context == req.context
    &&& d.research_goal == req.research_goal
    &&& d.created_at == now
    &&& d.last_activity_timestamp == now
    &&& d.system_message == req.system_message
    &&& d.messages == req.messages
    &&& d.tool_definitions@.len() == 0
}

/// Status of a session with the time left before it expires.
#[derive(Debug, Clone, PartialEq, Eq)]
pub struct StatusResponse {
    pub session_id: String,
    pub status: SessionStatus,
    /// Milliseconds left, or `None` once the session has expired.
    pub time_remaining_ms: Option<u128>,
}

/// Milliseconds left before a session last active at `last_activity` expires
/// after `timeout_secs` seconds, or `None` when it has.
pub open spec fn time_remaining(last_activity: i64, timeout_secs: u64, now: i64) -> Option<int> {
    let expiry = last_activity + timeout_secs * 1000;
    if expiry > now { Some(expiry - now) } else { None }
}

/// Why a session named by text could not be read.
#[derive(Debug, Clone, Copy, PartialEq, Eq, Structural)]
pub enum SessionLookupError {
    /// The text is not a UUID.
    InvalidId,
    /// No session has that id.
    NotFound,
}

/// The table of sessions.
pub struct SessionStore {
    sessions: KeyedList<SessionData>,
}

impl View for SessionStore {
    type V = Map<Seq<char>, SessionData>;

    closed spec fn view(&self) -> Map<Seq<char>, SessionData> {
        self.sessions@
    }
}

impl SessionStore {
    /// A table with no sessions.
    pub fn new() -> (r: SessionStore)
        ensures
            r@ == Map::<Seq<char>, SessionData>::empty(),
    {
        SessionStore { sessions: KeyedList::new() }
    }

    /// The session with id `session_id`.
    pub fn get_session(&self, session_id: &str) -> (r: Option<&SessionData>)
        ensures
            match r {
                Some(d) => self@.contains_key(session_id@) && *d == self@[session_id@],
                None => !self@.contains_key(session_id@),
            },
    {
        self.sessions.get(session_id)
    }

    /// The session whose id the text names, as a client sends it: the text
    /// must parse as a UUID, and is looked up in its canonical form.
    pub fn lookup_session(&self, id_text: &str) -> (r: Result<&SessionData, SessionLookupError>)
        ensures
            match uuid_canonical_text(id_text@) {
                None => r == Err::<&SessionData, SessionLookupError>(SessionLookupError::InvalidId),
                Some(c) => match r {
                    Ok(d) => self@.contains_key(c) && *d == self@[c],
                    Err(e) => e == SessionLookupError::NotFound && !self@.contains_key(c),
                },
            },
    {
        match parse_uuid(id_text) {
            None => Err(SessionLookupError::InvalidId),
            Some(canonical) => match self.sessions.get(canonical.as_str()) {
                Some(d) => Ok(d),
                None => Err(SessionLookupError::NotFound),
            },
        }
    }

    /// Number of sessions.
    pub fn len(&self) -> (r: usize)
        ensures
            r == self@.len(),
    {
        self.sessions.len()
    }

    /// Ids of all sessions, each once, in no promised order.
    pub fn get_session_ids(&self) -> (r: Vec<String>)
        ensures
            r.len() == self@.len(),
            forall|i: int, j: int| 0 <= i < r.len() && 0 <= j < r.len() && i != j ==> #[trigger] r@[i]@ != #[trigger] r@[j]@,
            forall|k: Seq<char>| self@.contains_key(k) <==> exists|i: int| 0 <= i < r.len() && #[trigger] r@[i]@ == k,
    {
        self.sessions.keys()
    }

    /// Stores `data` under `session_id`, replacing any session with that id.
    pub fn insert_session(&mut self, session_id: String, data: SessionData)
        ensures
            final(self)@ == old(self)@.insert(session_id@, data),
    {
        self.sessions.insert(session_id, data);
    }

    /// Removes a session and gives it back.
    pub fn remove_session(&mut self, session_id: &str) -> (r: Option<SessionData>)
        ensures
            final(self)@ == old(self)@.remove(session_id@),
            match r {
                Some(d) => old(self)@.contains_key(session_id@) && d == old(self)@[session_id@],
                None => !old(self)@.contains_key(session_id@),
            },
    {
        self.sessions.remove(session_id)
    }

    /// Adds a new `Pending` session under the given id, created at `now`.
    pub fn insert_new_session(&mut self, session_id: String, user_id: String, config: SessionConfig, now: i64)
        ensures
            final(self)@.contains_key(session_id@),
            is_new_session(final(self)@[session_id@], user_id@, session_id@, config, now),
            final(self)@.remove(session_id@) == old(self)@.remove(session_id@),
    {
        let research_goal = copy_opt(&config.initial_instruction);
        let data = SessionData {
            user_id,
            session_id: session_id.clone(),
            status: SessionStatus::Pending,
            config,
            history: Vec::new(),
            context: Vec::new(),
            research_goal,
            created_at: now,
            last_activity_timestamp: now,
            messages: Vec::new(),
            system_message: None,
            tool_definitions: Vec::new(),
        };
        self.sessions.insert(session_id, data);
        assert(final(self)@.remove(session_id@) =~= old(self)@.remove(session_id@));
    }

    /// Creates a session with a fresh random id and the current time; gives
    /// back the id.
    pub fn create_session(&mut self, user_id: String, config: SessionConfig) -> (r: String)
        ensures
            uuid_canonical_text(r@) == Some(r@),
            final(self)@.contains_key(r@),
            is_new_session(final(self)@[r@], user_id@, r@, config, final(self)@[r@].created_at),
            final(self)@.remove(r@) == old(self)@.remove(r@),
    {
        let session_id = new_uuid_text();
        let now = now_millis();
        self.insert_new_session(session_id.clone(), user_id, config, now);
        session_id
    }

    /// Sets a session's status, stamping its activity time with `now`.
    pub fn update_status_at(&mut self, session_id: &str, status: SessionStatus, now: i64) -> (r: Result<(), String>)
        ensures
            match r {
                Ok(()) => {
                    &&& old(self)@.contains_key(session_id@)
                    &&& final(self)@.dom() == old(self)@.dom()
                    &&& status_changed(old(self)@[session_id@], final(self)@[session_id@], status, now)
                    &&& final(self)@.remove(session_id@) == old(self)@.remove(session_id@)
                },
                Err(e) => {
                    &&& !old(self)@.contains_key(session_id@)
                    &&& e@ == not_found_text(session_id@)
                    &&& final(self)@ == old(self)@
                },
            },
    {
        match self.sessions.remove(session_id) {
            Some(mut data) => {
                data.status = status;
                data.last_activity_timestamp = now;
                self.sessions.insert(String::from_str(session_id), data);
                assert(final(self)@.remove(session_id@) =~= old(self)@.remove(session_id@));
                assert(final(self)@.dom() =~= old(self)@.dom());
                Ok(())
            },
            None => {
                assert(old(self)@.remove(session_id@) =~= old(self)@);
                Err(concat("Session not found: ", session_id))
            },
        }
    }

    /// `update_status_at` with the current time.
    pub fn update_status(&mut self, session_id: &str, status: SessionStatus) -> (r: Result<(), String>)
        ensures
            match r {
                Ok(()) => {
                    &&& old(self)@.contains_key(session_id@)
                    &&& final(self)@.dom() == old(self)@.dom()
                    &&& final(self)@[session_id@].status == status
                    &&& status_changed(
                        old(self)@[session_id@],
                        final(self)@[session_id@],
                        status,
                        final(self)@[session_id@].last_activity_timestamp,
                    )
                    &&& final(self)@.remove(session_id@) == old(self)@.remove(session_id@)
                },
                Err(e) => {
                    &&& !old(self)@.contains_key(session_id@)
                    &&& e@ == not_found_text(session_id@)
                    &&& final(self)@ == old(self)@
                },
            },
    {
        let now = now_millis();
        self.update_status_at(session_id, status, now)
    }

    /// Appends `entry` to a session's history, stamping its activity time
    /// with `now`.
    pub fn add_conversation_entry_at(&mut self, session_id: &str, entry: ConversationEntry, now: i64) -> (r: Result<(), String>)
        ensures
            match r {
                Ok(()) => {
                    &&& old(self)@.contains_key(session_id@)
                    &&& final(self)@.dom() == old(self)@.dom()
                    &&& entry_appended(old(self)@[session_id@], final(self)@[session_id@], entry, now)
                    &&& final(self)@.remove(session_id@) == old(self)@.remove(session_id@)
                },
                Err(e) => {
                    &&& !old(self)@.contains_key(session_id@)
                    &&& e@ == not_found_text(session_id@)
                    &&& final(self)@ == old(self)@
                },
            },
    {
        match self.sessions.remove(session_id) {
            Some(mut data) => {
                let ghost before = data;
                data.history.push(entry);
                data.last_activity_timestamp = now;
                assert(data == SessionData { history: data.history, last_activity_timestamp: now, ..before });
                self.sessions.insert(String::from_str(session_id), data);
                assert(final(self)@.remove(session_id@) =~= old(self)@.remove(session_id@));
                assert(final(self)@.dom() =~= old(self)@.dom());
                Ok(())
            },
            None => {
                assert(old(self)@.remove(session_id@) =~= old(self)@);
                Err(concat("Session not found: ", session_id))
            },
        }
    }

    /// `add_conversation_entry_at` with the current time.
    pub fn add_conversation_entry(&mut self, session_id: &str, entry: ConversationEntry) -> (r: Result<(), String>)
        ensures
            match r {
                Ok(()) => {
                    &&& old(self)@.contains_key(session_id@)
                    &&& final(self)@.dom() == old(self)@.dom()
                    &&& entry_appended(
                        old(self)@[session_id@],
                        final(self)@[session_id@],
                        entry,
                        final(self)@[session_id@].last_activity_timestamp,
                    )
                    &&& final(self)@.remove(session_id@) == old(self)@.remove(session_id@)
                },
                Err(e) => {
                    &&& !old(self)@.contains_key(session_id@)
                    &&& e@ == not_found_text(session_id@)
                    &&& final(self)@ == old(self)@
                },
            },
    {
        let now = now_millis();
        self.add_conversation_entry_at(session_id, entry, now)
    }

    /// Appends `entry` to a session's gathered context, stamping its activity
    /// time with `now`.
    pub fn add_context_entry_at(&mut self, session_id: &str, entry: ContextEntry, now: i64) -> (r: Result<(), String>)
        ensures
            match r {
                Ok(()) => {
                    &&& old(self)@.contains_key(session_id@)
                    &&& final(self)@.dom() == old(self)@.dom()
                    &&& context_appended(old(self)@[session_id@], final(self)@[session_id@], entry, now)
                    &&& final(self)@.remove(session_id@) == old(self)@.remove(session_id@)
                },
                Err(e) => {
                    &&& !old(self)@.contains_key(session_id@)
                    &&& e@ == not_found_text(session_id@)
                    &&& final(self)@ == old(self)@
                },
            },
    {
        match self.sessions.remove(session_id) {
            Some(mut data) => {
                let ghost before = data;
                data.context.push(entry);
                data.last_activity_timestamp = now;
                assert(data == SessionData { context: data.context, last_activity_timestamp: now, ..before });
                self.sessions.insert(String::from_str(session_id), data);
                assert(final(self)@.remove(session_id@) =~= old(self)@.remove(session_id@));
                assert(final(self)@.dom() =~= old(self)@.dom());
                Ok(())
            },
            None => {
                assert(old(self)@.remove(session_id@) =~= old(self)@);
                Err(concat("Session not found: ", session_id))
            },
        }
    }

    /// `add_context_entry_at` with the current time.
    pub fn add_context_entry(&mut self, session_id: &str, entry: ContextEntry) -> (r: Result<(), String>)
        ensures
            match r {
                Ok(()) => {
                    &&& old(self)@.contains_key(session_id@)
                    &&& final(self)@.dom() == old(self)@.dom()
                    &&& context_appended(
                        old(self)@[session_id@],
                        final(self)@[session_id@],
                        entry,
                        final(self)@[session_id@].last_activity_timestamp,
                    )
                    &&& final(self)@.remove(session_id@) == old(self)@.remove(session_id@)
                },
                Err(e) => {
                    &&& !old(self)@.contains_key(session_id@)
                    &&& e@ == not_found_text(session_id@)
                    &&& final(self)@ == old(self)@
                },
            },
    {
        let now = now_millis();
        self.add_context_entry_at(session_id, entry, now)
    }

    /// Records a user message: a session in a finished or waiting state is
    /// set back to `Pending` with the message as its new goal; the message is
    /// appended to the history. Gives `false` when there is no such session.
    pub fn post_user_message_at(
        &mut self,
        session_id: &str,
        content: String,
        attachments: Vec<Attachment>,
        entry_id: String,
        now: i64,
    ) -> (r: bool)
        ensures
            r == old(self)@.contains_key(session_id@),
            !r ==> final(self)@ == old(self)@,
            r ==> {
                let before = old(self)@[session_id@];
                let after = final(self)@[session_id@];
                &&& final(self)@.dom() == old(self)@.dom()
                &&& final(self)@.remove(session_id@) == old(self)@.remove(session_id@)
                &&& user_message_posted(before, after, content)
                &&& is_user_entry(after.history@.last(), entry_id@, content@, attachments@, now)
            },
    {
        match self.sessions.remove(session_id) {
            Some(mut data) => {
                let ghost before = data;
                if data.status.is_resumable() {
                    data.status = SessionStatus::Pending;
                    data.research_goal = Some(content.clone());
                }
                let entry = ConversationEntry {
                    id: entry_id,
                    parent_id: None,
                    depth: 0,
                    sender: crate::types::Sender::User,
                    message: content,
                    timestamp: now,
                    tools: Vec::new(),
                    attachments,
                    tool_choice: None,
                    tool_response: None,
                };
                data.history.push(entry);
                assert(data.history@.drop_last() =~= before.history@);
                self.sessions.insert(String::from_str(session_id), data);
                assert(final(self)@.remove(session_id@) =~= old(self)@.remove(session_id@));
                assert(final(self)@.dom() =~= old(self)@.dom());
                true
            },
            None => {
                assert(old(self)@.remove(session_id@) =~= old(self)@);
                false
            },
        }
    }

    /// `post_user_message_at` with a fresh entry id and the current time.
    pub fn post_user_message(&mut self, session_id: &str, content: String, attachments: Vec<Attachment>) -> (r: bool)
        ensures
            r == old(self)@.contains_key(session_id@),
            !r ==> final(self)@ == old(self)@,
            r ==> {
                let before = old(self)@[session_id@];
                let after = final(self)@[session_id@];
                let e = after.history@.last();
                &&& final(self)@.dom() == old(self)@.dom()
                &&& final(self)@.remove(session_id@) == old(self)@.remove(session_id@)
                &&& user_message_posted(before, after, content)
                &&& is_user_entry(e, e.id@, content@, attachments@, e.timestamp)
                &&& uuid_canonical_text(e.id@) == Some(e.id@)
                &&& e.id@.len() == 36
            },
    {
        let entry_id = new_uuid_text();
        let now = now_millis();
        self.post_user_message_at(session_id, content, attachments, entry_id, now)
    }

    /// Stores a saved session state under `session_id`, created at `now`.
    pub fn load_session_at(&mut self, request: LoadSessionRequest, session_id: String, now: i64)
        ensures
            final(self)@.contains_key(session_id@),
            is_loaded_session(final(self)@[session_id@], request, session_id@, now),
            final(self)@.remove(session_id@) == old(self)@.remove(session_id@),
    {
        let data = SessionData {
            user_id: request.user_id,
            session_id: session_id.clone(),
            status: request.status,
            config: request.config,
            history: request.history,
            context: request.context,
            research_goal: request.research_goal,
            created_at: now,
            last_activity_timestamp: now,
            messages: request.messages,
            system_message: request.system_message,
            tool_definitions: Vec::new(),
        };
        self.sessions.insert(session_id, data);
        assert(final(self)@.remove(session_id@) =~= old(self)@.remove(session_id@));
    }

    /// Stores a saved session state under a fresh id, created now; gives back
    /// the id.
    pub fn load_session(&mut self, request: LoadSessionRequest) -> (r: String)
        ensures
            uuid_canonical_text(r@) == Some(r@),
            final(self)@.contains_key(r@),
            is_loaded_session(final(self)@[r@], request, r@, final(self)@[r@].created_at),
            final(self)@.remove(r@) == old(self)@.remove(r@),
    {
        let session_id = new_uuid_text();
        let now = now_millis();
        self.load_session_at(request, session_id.clone(), now);
        session_id
    }

    /// The `save_context` tool: adds content to a session's gathered context.
    pub fn save_context_at(&mut self, params: ToolParameters, session_id: &str, now: i64) -> (r: Result<String, String>)
        ensures
            match params {
                ToolParameters::SaveContext { content, source } => {
                    if old(self)@.contains_key(session_id@) {
                        let before = old(self)@[session_id@];
                        let after = final(self)@[session_id@];
                        &&& r matches Ok(m) && m@ == "Context saved successfully."@
                        &&& final(self)@.dom() == old(self)@.dom()
                        &&& final(self)@.remove(session_id@) == old(self)@.remove(session_id@)
                        &&& after.context@ == before.context@.push(ContextEntry { content, source, timestamp: now })
                        &&& after == SessionData { context: after.context, ..before }
                    } else {
                        &&& r matches Err(e) && e@ == "Session "@ + session_id@ + " not found for saving context."@
                        &&& final(self)@ == old(self)@
                    }
                },
                _ => {
                    &&& r matches Err(e) && e@ == "Invalid parameters provided for save_context tool."@
                    &&& final(self)@ == old(self)@
                },
            },
    {
        match params {
            ToolParameters::SaveContext { content, source } => {
                match self.sessions.remove(session_id) {
                    Some(mut data) => {
                        let ghost before = data;
                        data.context.push(ContextEntry { content, source, timestamp: now });
                        self.sessions.insert(String::from_str(session_id), data);
                        assert(final(self)@.remove(session_id@) =~= old(self)@.remove(session_id@));
                        assert(final(self)@.dom() =~= old(self)@.dom());
                        Ok(String::from_str("Context saved successfully."))
                    },
                    None => {
                        assert(old(self)@.remove(session_id@) =~= old(self)@);
                        Err(concat3("Session ", session_id, " not found for saving context."))
                    },
                }
            },
            _ => Err(String::from_str("Invalid parameters provided for save_context tool.")),
        }
    }

    /// `save_context_at` with the current time.
    pub fn handle_save_context(&mut self, params: ToolParameters, session_id: &str) -> (r: Result<String, String>)
        ensures
            match params {
                ToolParameters::SaveContext { content, source } => {
                    if old(self)@.contains_key(session_id@) {
                        let before = old(self)@[session_id@];
                        let after = final(self)@[session_id@];
                        &&& r matches Ok(m) && m@ == "Context saved successfully."@
                        &&& final(self)@.dom() == old(self)@.dom()
                        &&& final(self)@.remove(session_id@) == old(self)@.remove(session_id@)
                        &&& after.context@.drop_last() == before.context@
                        &&& after.context@.len() == before.context@.len() + 1
                        &&& after.context@.last().content == content
                        &&& after.context@.last().source == source
                        &&& after == SessionData { context: after.context, ..before }
                    } else {
                        &&& r matches Err(e) && e@ == "Session "@ + session_id@ + " not found for saving context."@
                        &&& final(self)@ == old(self)@
                    }
                },
                _ => {
                    &&& r matches Err(e) && e@ == "Invalid parameters provided for save_context tool."@
                    &&& final(self)@ == old(self)@
                },
            },
    {
        let now = now_millis();
        let ghost p = params;
        let r = self.save_context_at(params, session_id, now);
        proof {
            if let ToolParameters::SaveContext { content, source } = p {
                if old(self)@.contains_key(session_id@) {
                    assert(final(self)@[session_id@].context@.drop_last() =~= old(self)@[session_id@].context@);
                }
            }
        }
        r
    }

    /// Puts a compacted history in place, stamping the activity time with
    /// `now`.
    pub fn replace_history_at(&mut self, session_id: &str, history: Vec<ConversationEntry>, now: i64) -> (r: Result<(), String>)
        ensures
            match r {
                Ok(()) => {
                    &&& old(self)@.contains_key(session_id@)
                    &&& final(self)@ == old(self)@.insert(
                        session_id@,
                        SessionData { history, last_activity_timestamp: now, ..old(self)@[session_id@] },
                    )
                },
                Err(e) => {
                    &&& !old(self)@.contains_key(session_id@)
                    &&& e@ == "Session disappeared during compaction finalization: "@ + session_id@
                    &&& final(self)@ == old(self)@
                },
            },
    {
        match self.sessions.remove(session_id) {
            Some(mut data) => {
                data.history = history;
                data.last_activity_timestamp = now;
                self.sessions.insert(String::from_str(session_id), data);
                assert(final(self)@ =~= old(self)@.insert(
                    session_id@,
                    SessionData { history, last_activity_timestamp: now, ..old(self)@[session_id@] },
                ));
                Ok(())
            },
            None => {
                assert(old(self)@.remove(session_id@) =~= old(self)@);
                Err(concat("Session disappeared during compaction finalization: ", session_id))
            },
        }
    }

    /// Status of a session and the time left before it expires after
    /// `timeout_secs` seconds without activity.
    pub fn status_report_at(&self, session_id: &str, timeout_secs: u64, now: i64) -> (r: Option<StatusResponse>)
        ensures
            match r {
                Some(resp) => {
                    let d = self@[session_id@];
                    &&& self@.contains_key(session_id@)
                    &&& resp.session_id@ == session_id@
                    &&& resp.status == d.status
                    &&& (match resp.time_remaining_ms {
                        Some(ms) => Some(ms as int),
                        None => None,
                    }) == time_remaining(d.last_activity_timestamp, timeout_secs, now)
                },
                None => !self@.contains_key(session_id@),
            },
    {
        match self.sessions.get(session_id) {
            Some(d) => {
                let expiry: i128 = d.last_activity_timestamp as i128 + timeout_secs as i128 * 1000;
                let remaining = if expiry > now as i128 {
                    Some((expiry - now as i128) as u128)
                } else {
                    None
                };
                Some(StatusResponse { session_id: String::from_str(session_id), status: d.status.duplicate(), time_remaining_ms: remaining })
            },
            None => None,
        }
    }
}

} // verus!

verus! {

/// Every operation on one session (status, history, context, user message,
/// compaction, save) leaves every other session exactly as it was: the ids
/// present stay present and their sessions unchanged.
pub proof fn lemma_other_sessions_untouched(
    before: Map<Seq<char>, SessionData>,
    after: Map<Seq<char>, SessionData>,
    id: Seq<char>,
    other: Seq<char>,
)
    requires
        after.remove(id) == before.remove(id),
        other != id,
    ensures
        after.contains_key(other) == before.contains_key(other),
        before.contains_key(other) ==> after[other] == before[other],
{
    assert(before.remove(id).contains_key(other) == before.contains_key(other));
    assert(after.remove(id).contains_key(other) == after.contains_key(other));
    if before.contains_key(other) {
        assert(before.remove(id)[other] == before[other]);
        assert(after.remove(id)[other] == after[other]);
    }
}

/// Once a session is removed (`terminate`), looking it up finds nothing,
/// and a second removal changes nothing.
pub proof fn lemma_removed_session_is_gone(before: Map<Seq<char>, SessionData>, id: Seq<char>)
    ensures
        !before.remove(id).contains_key(id),
        before.remove(id).remove(id) == before.remove(id),
{
    assert(before.remove(id).remove(id) =~= before.remove(id));
}

/// After an entry is appended to a session's history, the prompt built for
/// the session has one more message, and its last message shows that entry.
pub proof fn lemma_prompt_ends_with_new_entry(
    before: SessionData,
    after: SessionData,
    entry: ConversationEntry,
    now: i64,
    prompt: Seq<Message>,
)
    requires
        entry_appended(before, after, entry, now),
        crate::prompt::is_prompt_for(after, prompt),
    ensures
        prompt.len() == crate::prompt::prelude_len(before) + before.history@.len() + 1,
        Message::spec_with_role(crate::prompt::entry_role(entry), crate::prompt::entry_content(entry), prompt.last()),
{
    let i = before.history@.len() as int;
    assert(after.history@[i] == entry);
    assert(prompt.last() == prompt[crate::prompt::prelude_len(after) + i]);
}

/// A user message posted to a session that had finished (`Completed`,
/// `Timeout`, `Error`, `Interrupted`) or was waiting for the user
/// (`AwaitingInput`) restarts the conversation: the session is `Pending`
/// again, with the message as its research goal. A session that is new,
/// pending or running keeps its status and goal. Either way the message is
/// the one entry added to the history.
pub proof fn lemma_post_restarts_finished_session(before: SessionData, after: SessionData, content: String)
    requires
        user_message_posted(before, after, content),
    ensures
        (before.status is Completed || before.status is Timeout || before.status is Error
            || before.status is Interrupted || before.status is AwaitingInput) ==> {
            &&& after.status == SessionStatus::Pending
            &&& after.research_goal == Some(content)
        },
        (before.status is Created || before.status is Pending || before.status is Running) ==> {
            &&& after.status == before.status
            &&& after.research_goal == before.research_goal
        },
        after.history@ == before.history@.push(after.history@.last()),
{
    assert(after.history@ =~= after.history@.drop_last().push(after.history@.last()));
}

} // verus!
