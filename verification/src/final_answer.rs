//! What the final answer of a session is built from: its gathered context
//! and its latest user query.

use vstd::prelude::*;
use crate::history_views::{find_latest_user_message, latest_user_message};
use crate::text::{concat, joined, join_strings, views};
use crate::session::SessionStore;
use crate::types::{ContextEntry, SessionData};

verus! {

broadcast use vstd::string::group_string_axioms;

/// Stands for the context of a session that gathered none.
pub const NO_CONTEXT: &'static str = "No context available for this session.";

/// Stands for the query of a session with no user message.
pub const NO_QUERY: &'static str = "No user query found";

/// The gathered context as one text: the entries' contents separated by a
/// pair of escaped line breaks, or a note that there is none.
pub open spec fn formatted_context(c: Seq<ContextEntry>) -> Seq<char> {
    if c.len() == 0 {
        NO_CONTEXT@
    } else {
        joined(c.map_values(|e: ContextEntry| e.content@), "\\n\\n"@)
    }
}

/// The gathered context of a session as one text.
pub fn format_context(session_data: &SessionData) -> (r: String)
    ensures
        r@ == formatted_context(session_data.context@),
{
    if session_data.context.len() == 0 {
        return String::from_str(NO_CONTEXT);
    }
    let mut parts: Vec<String> = Vec::new();
    let mut i: usize = 0;
    while i < session_data.context.len()
        invariant
            i <= session_data.context@.len(),
            parts@.len() == i,
            forall|k: int| 0 <= k < i ==> #[trigger] parts@[k]@ == session_data.context@[k].content@,
        decreases session_data.context@.len() - i,
    {
        parts.push(session_data.context[i].content.clone());
        i = i + 1;
    }
    assert(views(parts@) =~= session_data.context@.map_values(|e: ContextEntry| e.content@));
    join_strings(&parts, "\\n\\n")
}

/// The query the final answer addresses: the latest user message.
pub fn latest_user_query(session_data: &SessionData) -> (r: String)
    ensures
        r@ == match latest_user_message(session_data.history@) {
            Some(m) => m,
            None => NO_QUERY@,
        },
{
    match find_latest_user_message(&session_data.history) {
        Some(m) => m,
        None => String::from_str(NO_QUERY),
    }
}

/// The final answer, or the model call's failure in the agent's words.
pub fn final_answer_outcome<A>(llm_result: Result<A, String>) -> (r: Result<A, String>)
    ensures
        match llm_result {
            Ok(v) => r == Ok::<A, String>(v),
            Err(e) => r matches Err(m) && m@ == "Failed to generate final answer via LLM: "@ + e@,
        },
{
    match llm_result {
        Ok(v) => Ok(v),
        Err(e) => Err(concat("Failed to generate final answer via LLM: ", e.as_str())),
    }
}

impl SessionStore {
    /// The session that a final answer is built for, or the error for an
    /// unknown id.
    pub fn final_answer_session(&self, session_id: &str) -> (r: Result<&SessionData, String>)
        ensures
            match r {
                Ok(d) => self@.contains_key(session_id@) && *d == self@[session_id@],
                Err(e) => !self@.contains_key(session_id@) && e@ == "Session not found: "@ + session_id@,
            },
    {
        match self.get_session(session_id) {
            Some(d) => Ok(d),
            None => Err(concat("Session not found: ", session_id)),
        }
    }
}

} // verus!
