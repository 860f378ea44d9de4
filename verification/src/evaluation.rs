//! What the agent makes of the model's judgements on context and on
//! termination.

use vstd::prelude::*;
use crate::text::concat;
use crate::types::ConversationEntry;

verus! {

broadcast use vstd::string::group_string_axioms;

/// The model's judgement on the context of a conversation.
#[derive(Debug, Clone, PartialEq, Eq)]
pub struct LlmContextEvaluation {
    pub is_sufficient: bool,
    pub next_steps: Vec<String>,
    pub missing_information: Option<String>,
}

/// The model's judgement on whether a conversation should end.
#[derive(Debug, Clone, PartialEq, Eq)]
pub struct LlmTerminationDecision {
    pub should_terminate: bool,
    pub reasoning: String,
}

/// Feedback on context, apart from its relevance score: whether the context
/// needs updating, and the suggested next steps.
#[derive(Debug, Clone, PartialEq, Eq)]
pub struct ContextFeedback {
    pub needs_update: bool,
    pub suggestions: Vec<String>,
}

/// Feedback from a judgement: the context needs updating exactly when it is
/// not sufficient, and the suggestions are the next steps.
pub fn evaluation_feedback(evaluation: LlmContextEvaluation) -> (r: ContextFeedback)
    ensures
        r.needs_update == !evaluation.is_sufficient,
        r.suggestions == evaluation.next_steps,
{
    ContextFeedback { needs_update: !evaluation.is_sufficient, suggestions: evaluation.next_steps }
}

/// The feedback, or the model call's failure in the agent's words.
pub fn evaluation_outcome(llm_result: Result<LlmContextEvaluation, String>) -> (r: Result<ContextFeedback, String>)
    ensures
        match llm_result {
            Ok(ev) => r matches Ok(f) && f.needs_update == !ev.is_sufficient && f.suggestions == ev.next_steps,
            Err(e) => r matches Err(m) && m@ == "LLM context evaluation failed: "@ + e@,
        },
{
    match llm_result {
        Ok(ev) => Ok(evaluation_feedback(ev)),
        Err(e) => Err(concat("LLM context evaluation failed: ", e.as_str())),
    }
}

/// Whether to end the conversation: the model's decision, or no when the
/// model could not be asked.
pub fn termination_decision(llm_result: &Result<LlmTerminationDecision, String>) -> (r: bool)
    ensures
        r == match llm_result {
            Ok(d) => d.should_terminate,
            Err(_) => false,
        },
{
    match llm_result {
        Ok(d) => d.should_terminate,
        Err(_) => false,
    }
}

/// How many of the latest history entries the model sees when judging
/// whether to end the conversation.
pub const TERMINATION_WINDOW: usize = 10;

/// The latest `TERMINATION_WINDOW` entries of a history, oldest first (all
/// of them when there are fewer).
pub open spec fn recent_window(h: Seq<ConversationEntry>) -> Seq<ConversationEntry> {
    if h.len() > TERMINATION_WINDOW {
        h.subrange(h.len() - TERMINATION_WINDOW, h.len() as int)
    } else {
        h
    }
}

/// The entries that a list of references points to.
pub open spec fn entries_pointed(s: Seq<&ConversationEntry>) -> Seq<ConversationEntry> {
    s.map_values(|e: &ConversationEntry| *e)
}

/// The entries shown to the model when it judges whether to end the
/// conversation: the latest ten, oldest first.
pub fn termination_window(history: &Vec<ConversationEntry>) -> (r: Vec<&ConversationEntry>)
    ensures
        entries_pointed(r@) == recent_window(history@),
{
    let n = history.len();
    let start = if n > TERMINATION_WINDOW { n - TERMINATION_WINDOW } else { 0 };
    let mut out: Vec<&ConversationEntry> = Vec::new();
    let mut i = start;
    while i < n
        invariant
            n == history@.len(),
            start <= i <= n,
            start == (if n > TERMINATION_WINDOW { n - TERMINATION_WINDOW } else { 0 }),
            entries_pointed(out@) == history@.subrange(start as int, i as int),
        decreases n - i,
    {
        let ghost prev = out@;
        out.push(&history[i]);
        assert(entries_pointed(out@) =~= entries_pointed(prev).push(history@[i as int])) by {
            assert forall|j: int| 0 <= j < prev.len() implies #[trigger] entries_pointed(out@)[j] == entries_pointed(prev)[j] by {
                assert(out@[j] == prev[j]);
            }
        }
        assert(history@.subrange(start as int, i as int).push(history@[i as int]) =~= history@.subrange(start as int, i + 1));
        i += 1;
    }
    assert(history@.subrange(0, n as int) =~= history@);
    out
}

} // verus!
