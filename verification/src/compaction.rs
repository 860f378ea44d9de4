//! Compaction of a session's history: when the history grows past the
//! policy's threshold, older entries are replaced by one summary entry.

use vstd::prelude::*;
use crate::config::AppConfig;
use crate::session::SessionStore;
use crate::text::{concat, joined, join_strings, views};
use crate::types::{ConversationEntry, SessionData, Sender};

verus! {

broadcast use vstd::string::group_string_axioms;

/// Number of entries above which the history is compacted: the policy's
/// `keep_last`.
pub open spec fn compaction_threshold(config: AppConfig) -> int {
    config.compaction_policy.keep_last as int
}

/// Whether `history` holds more entries than the policy keeps, so that it
/// is to be compacted.
pub fn should_compact_history(history: &Vec<ConversationEntry>, config: &AppConfig) -> (r: bool)
    ensures
        r == (history@.len() > compaction_threshold(*config)),
{
    history.len() > config.compaction_policy.keep_last
}

/// Reply to a request to summarize nothing.
pub const NOTHING_TO_SUMMARIZE: &'static str = "No entries to summarize.";

/// Opening of the summarization prompt.
pub const SUMMARY_PROMPT_HEAD: &'static str = "Summarize the following conversation concisely, capturing the key points and flow:\\n\\n---\\n";

/// End of the summarization prompt.
pub const SUMMARY_PROMPT_TAIL: &'static str = "\\n---";

/// Identifier given to summary entries (the nil UUID).
pub const SUMMARY_ENTRY_ID: &'static str = "00000000-0000-0000-0000-000000000000";

/// How one entry appears in the summarization prompt.
pub open spec fn summary_line(e: ConversationEntry) -> Seq<char> {
    e.sender.spec_name() + ": "@ + e.message@
}

/// The summarization prompt for a run of entries.
pub open spec fn summary_prompt(entries: Seq<ConversationEntry>) -> Seq<char> {
    SUMMARY_PROMPT_HEAD@ + joined(entries.map_values(|e: ConversationEntry| summary_line(e)), "\\n"@)
        + SUMMARY_PROMPT_TAIL@
}

/// What summarizing a run of entries takes.
#[derive(Debug, Clone, PartialEq, Eq)]
pub enum SummaryPlan {
    /// The summary is known without asking the model.
    Immediate(String),
    /// The prompt to send to the summarization model.
    Ask(String),
}

/// The summarization plan for the first `n` entries of `history`: nothing
/// to ask when `n` is zero, else the prompt listing them.
pub fn plan_summary(history: &Vec<ConversationEntry>, n: usize) -> (r: SummaryPlan)
    requires
        n <= history@.len(),
    ensures
        n == 0 ==> (r matches SummaryPlan::Immediate(s) && s@ == NOTHING_TO_SUMMARIZE@),
        n > 0 ==> (r matches SummaryPlan::Ask(p) && p@ == summary_prompt(history@.take(n as int))),
{
    if n == 0 {
        return SummaryPlan::Immediate(String::from_str(NOTHING_TO_SUMMARIZE));
    }
    let mut lines: Vec<String> = Vec::new();
    let mut i: usize = 0;
    while i < n
        invariant
            n <= history@.len(),
            i <= n,
            lines@.len() == i,
            forall|k: int| 0 <= k < i ==> #[trigger] lines@[k]@ == summary_line(history@[k]),
        decreases n - i,
    {
        let e = &history[i];
        let mut line = e.sender.name();
        line.append(": ");
        line.append(e.message.as_str());
        lines.push(line);
        i = i + 1;
    }
    assert(views(lines@) =~= history@.take(n as int).map_values(|e: ConversationEntry| summary_line(e)));
    let body = join_strings(&lines, "\\n");
    let mut prompt = String::from_str(SUMMARY_PROMPT_HEAD);
    prompt.append(body.as_str());
    prompt.append(SUMMARY_PROMPT_TAIL);
    SummaryPlan::Ask(prompt)
}

/// The summary to use, given the model's answer (or its failure).
pub fn summary_outcome(llm_result: Result<String, String>) -> (r: Result<String, String>)
    ensures
        match llm_result {
            Ok(s) => r == Ok::<String, String>(s),
            Err(e) => r matches Err(m) && m@ == "Typed LLM summarization failed: "@ + e@,
        },
{
    match llm_result {
        Ok(s) => Ok(s),
        Err(e) => Err(concat("Typed LLM summarization failed: ", e.as_str())),
    }
}

/// Work remaining after the history to summarize has been chosen.
#[derive(Debug, Clone, PartialEq, Eq)]
pub struct CompactionJob {
    /// How many leading entries the summary replaces.
    pub summarized_count: usize,
    /// Time of the last entry summarized; the summary entry takes it.
    pub last_timestamp: i64,
    /// How to obtain the summary.
    pub summary: SummaryPlan,
}

/// The entry that stands for the summarized part of the history.
pub open spec fn is_summary_entry(e: ConversationEntry, summary: Seq<char>, timestamp: i64) -> bool {
    &&& e.id@ == SUMMARY_ENTRY_ID@
    &&& e.parent_id is None
    &&& e.depth == 0
    &&& e.sender == Sender::System
    &&& e.message@ == "Summary of earlier conversation: "@ + summary
    &&& e.timestamp == timestamp
    &&& e.tools@.len() == 0
    &&& e.attachments@.len() == 0
    &&& e.tool_choice is None
    &&& e.tool_response is None
}

impl SessionStore {
    /// Chooses what to summarize: all but the last `keep_last` entries of the
    /// session's history, or nothing when the history is no longer than that.
    pub fn begin_compaction(&self, session_id: &str, keep_last: usize) -> (r: Result<Option<CompactionJob>, String>)
        ensures
            match r {
                Err(e) => !self@.contains_key(session_id@) && e@ == "Session not found for compaction: "@ + session_id@,
                Ok(None) => self@.contains_key(session_id@) && self@[session_id@].history@.len() <= keep_last,
                Ok(Some(job)) => {
                    let h = self@[session_id@].history@;
                    &&& self@.contains_key(session_id@)
                    &&& h.len() > keep_last
                    &&& job.summarized_count == h.len() - keep_last
                    &&& job.last_timestamp == h[job.summarized_count - 1].timestamp
                    &&& job.summary matches SummaryPlan::Ask(p) && p@ == summary_prompt(h.take(job.summarized_count as int))
                },
            },
    {
        match self.get_session(session_id) {
            None => Err(concat("Session not found for compaction: ", session_id)),
            Some(data) => {
                let len = data.history.len();
                if len <= keep_last {
                    return Ok(None);
                }
                let count = len - keep_last;
                let last_timestamp = data.history[count - 1].timestamp;
                let summary = plan_summary(&data.history, count);
                Ok(Some(CompactionJob { summarized_count: count, last_timestamp, summary }))
            },
        }
    }

    /// Puts the summary in place of the summarized entries, stamping the
    /// activity time with `now`; a failed summary leaves the session as it was.
    pub fn finish_compaction_at(
        &mut self,
        session_id: &str,
        summarized_count: usize,
        last_timestamp: i64,
        summary: Result<String, String>,
        now: i64,
    ) -> (r: Result<(), String>)
        ensures
            match summary {
                Err(e) => r matches Err(m) && m@ == "Failed to compact history: "@ + e@ && final(self)@ == old(self)@,
                Ok(text) => if old(self)@.contains_key(session_id@) {
                    let before = old(self)@[session_id@];
                    let after = final(self)@[session_id@];
                    let c = if summarized_count <= before.history@.len() {
                        summarized_count as int
                    } else {
                        before.history@.len() as int
                    };
                    &&& r is Ok
                    &&& final(self)@.dom() == old(self)@.dom()
                    &&& final(self)@.remove(session_id@) == old(self)@.remove(session_id@)
                    &&& after == SessionData { history: after.history, last_activity_timestamp: now, ..before }
                    &&& after.history@.len() == 1 + before.history@.len() - c
                    &&& is_summary_entry(after.history@[0], text@, last_timestamp)
                    &&& after.history@.skip(1) == before.history@.skip(c)
                } else {
                    &&& r matches Err(m) && m@ == "Session disappeared during compaction finalization: "@ + session_id@
                    &&& final(self)@ == old(self)@
                },
            },
    {
        let text = match summary {
            Ok(t) => t,
            Err(e) => {
                return Err(concat("Failed to compact history: ", e.as_str()));
            },
        };
        match self.remove_session(session_id) {
            None => {
                assert(old(self)@.remove(session_id@) =~= old(self)@);
                Err(concat("Session disappeared during compaction finalization: ", session_id))
            },
            Some(mut data) => {
                let ghost before = data;
                let c = if summarized_count <= data.history.len() {
                    summarized_count
                } else {
                    data.history.len()
                };
                let mut kept = data.history.split_off(c);
                let summary_entry = ConversationEntry {
                    id: String::from_str(SUMMARY_ENTRY_ID),
                    parent_id: None,
                    depth: 0,
                    sender: Sender::System,
                    message: concat("Summary of earlier conversation: ", text.as_str()),
                    timestamp: last_timestamp,
                    tools: Vec::new(),
                    attachments: Vec::new(),
                    tool_choice: None,
                    tool_response: None,
                };
                let mut history: Vec<ConversationEntry> = Vec::new();
                history.push(summary_entry);
                history.append(&mut kept);
                assert(history@.skip(1) =~= before.history@.skip(c as int));
                data.history = history;
                data.last_activity_timestamp = now;
                self.insert_session(String::from_str(session_id), data);
                assert(final(self)@.remove(session_id@) =~= old(self)@.remove(session_id@));
                assert(final(self)@.dom() =~= old(self)@.dom());
                Ok(())
            },
        }
    }
}

} // verus!

verus! {

/// Compacting a history longer than `keep_last` (the count that
/// `begin_compaction` chooses, then `finish_compaction_at` with the summary)
/// leaves `keep_last + 1` entries: the system summary, then the last
/// `keep_last` entries in their order.
pub proof fn lemma_compaction_keeps_last(
    before: SessionData,
    after: SessionData,
    keep_last: nat,
    summarized: int,
    summary: Seq<char>,
    timestamp: i64,
)
    requires
        before.history@.len() > keep_last,
        summarized == before.history@.len() - keep_last,
        after.history@.len() == 1 + before.history@.len() - summarized,
        is_summary_entry(after.history@[0], summary, timestamp),
        after.history@.skip(1) == before.history@.skip(summarized),
    ensures
        after.history@.len() == keep_last + 1,
        after.history@[0].sender == Sender::System,
        forall|i: int| 0 <= i < keep_last ==> #[trigger] after.history@[i + 1] == before.history@[summarized + i],
{
    assert forall|i: int| 0 <= i < keep_last implies #[trigger] after.history@[i + 1] == before.history@[summarized + i] by {
        let a = after.history@;
        let b = before.history@;
        assert(a.skip(1).len() == keep_last);
        assert(a.skip(1)[i] == a[i + 1]);
        assert(b.skip(summarized)[i] == b[summarized + i]);
        assert(a.skip(1)[i] == b.skip(summarized)[i]);
    }
}

} // verus!
