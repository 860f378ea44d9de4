//! Whether a session holds enough to answer the latest user request: the
//! prompt put to the model, and what is done with its answer.

use vstd::prelude::*;
use crate::history_views::{find_latest_agent_message, find_latest_user_message, latest_agent_message, latest_user_message};
use crate::text::{concat, joined, join_strings, take_chars, views};
use crate::types::{ContextEntry, ConversationEntry, SessionData};

verus! {

broadcast use vstd::string::group_string_axioms;

/// The model's verdict on sufficiency, with its reasoning.
#[derive(Debug, Clone, PartialEq, Eq)]
pub struct SufficiencyCheckResult {
    pub sufficient: bool,
    pub reasoning: String,
}

impl SufficiencyCheckResult {
    /// Example answers shown to the model.
    pub fn few_shots() -> (r: Vec<SufficiencyCheckResult>)
        ensures
            r@.len() == 2,
            r@[0].sufficient,
            r@[0].reasoning@ == "The provided context directly addresses the user's question about project status."@,
            !r@[1].sufficient,
            r@[1].reasoning@ == "More information is needed about the specific feature mentioned by the user."@,
    {
        let mut v: Vec<SufficiencyCheckResult> = Vec::new();
        v.push(SufficiencyCheckResult {
            sufficient: true,
            reasoning: String::from_str("The provided context directly addresses the user's question about project status."),
        });
        v.push(SufficiencyCheckResult {
            sufficient: false,
            reasoning: String::from_str("More information is needed about the specific feature mentioned by the user."),
        });
        v
    }
}

/// Prompt text before the last agent response.
pub const SUFFICIENCY_HEAD: &'static str = "Analyze the conversation flow to determine if enough information exists to fully answer the *latest user request*. Consider the full history, gathered context, and specifically the transition from the *last agent response* to the *latest user request*. Provide your answer as a JSON object with boolean 'sufficient' and string 'reasoning'.\n\nLast Agent Response (if any):\n";

/// Prompt text before the latest user request.
pub const SUFFICIENCY_USER: &'static str = "\n\nLatest User Request:\n";

/// Prompt text before the history.
pub const SUFFICIENCY_HISTORY: &'static str = "\n\nFull Conversation History:\n";

/// Prompt text before the gathered context.
pub const SUFFICIENCY_CONTEXT: &'static str = "\n\nGathered Context:\n";

/// Closing question of the prompt.
pub const SUFFICIENCY_TAIL: &'static str = "\n\nIs the available information sufficient? Respond ONLY with the JSON object.";

/// How an entry appears in the history part of the prompt.
pub open spec fn history_line(e: ConversationEntry) -> Seq<char> {
    e.sender.spec_name() + ": "@ + e.message@
}

/// How a context entry appears: its first hundred characters.
pub open spec fn context_line(c: ContextEntry) -> Seq<char> {
    "- "@ + c.content@.take(if c.content@.len() < 100 { c.content@.len() as int } else { 100 })
}

/// The sufficiency prompt for a session whose latest user request is `user`.
pub open spec fn sufficiency_prompt(d: SessionData, user: Seq<char>) -> Seq<char> {
    SUFFICIENCY_HEAD@ + match latest_agent_message(d.history@) {
        Some(a) => a,
        None => "N/A"@,
    } + SUFFICIENCY_USER@ + user + SUFFICIENCY_HISTORY@ + joined(
        d.history@.map_values(|e: ConversationEntry| history_line(e)),
        "\n"@,
    ) + SUFFICIENCY_CONTEXT@ + joined(d.context@.map_values(|c: ContextEntry| context_line(c)), "\n"@)
        + SUFFICIENCY_TAIL@
}

/// The prompt that asks whether the session suffices to answer its latest
/// user request; fails when there is no user message or no model.
pub fn sufficiency_prompt_for(session_data: &SessionData, models: &Vec<String>) -> (r: Result<String, String>)
    ensures
        match latest_user_message(session_data.history@) {
            None => r matches Err(e) && e@ == "No user message found in history."@,
            Some(u) => if models@.len() == 0 {
                r matches Err(e) && e@ == "No context evaluation models configured."@
            } else {
                r matches Ok(p) && p@ == sufficiency_prompt(*session_data, u)
            },
        },
{
    let latest = match find_latest_user_message(&session_data.history) {
        Some(m) => m,
        None => {
            return Err(String::from_str("No user message found in history."));
        },
    };
    let last_agent = match find_latest_agent_message(&session_data.history) {
        Some(m) => m,
        None => String::from_str("N/A"),
    };
    let mut lines: Vec<String> = Vec::new();
    let mut i: usize = 0;
    while i < session_data.history.len()
        invariant
            i <= session_data.history@.len(),
            lines@.len() == i,
            forall|k: int| 0 <= k < i ==> #[trigger] lines@[k]@ == history_line(session_data.history@[k]),
        decreases session_data.history@.len() - i,
    {
        let e = &session_data.history[i];
        let mut line = e.sender.name();
        line.append(": ");
        line.append(e.message.as_str());
        lines.push(line);
        i = i + 1;
    }
    assert(views(lines@) =~= session_data.history@.map_values(|e: ConversationEntry| history_line(e)));
    let history_text = join_strings(&lines, "\n");
    let mut ctx: Vec<String> = Vec::new();
    let mut j: usize = 0;
    while j < session_data.context.len()
        invariant
            j <= session_data.context@.len(),
            ctx@.len() == j,
            forall|k: int| 0 <= k < j ==> #[trigger] ctx@[k]@ == context_line(session_data.context@[k]),
        decreases session_data.context@.len() - j,
    {
        let head = take_chars(session_data.context[j].content.as_str(), 100);
        ctx.push(concat("- ", head.as_str()));
        j = j + 1;
    }
    assert(views(ctx@) =~= session_data.context@.map_values(|c: ContextEntry| context_line(c)));
    let context_text = join_strings(&ctx, "\n");
    if models.len() == 0 {
        return Err(String::from_str("No context evaluation models configured."));
    }
    let mut p = String::from_str(SUFFICIENCY_HEAD);
    p.append(last_agent.as_str());
    p.append(SUFFICIENCY_USER);
    p.append(latest.as_str());
    p.append(SUFFICIENCY_HISTORY);
    p.append(history_text.as_str());
    p.append(SUFFICIENCY_CONTEXT);
    p.append(context_text.as_str());
    p.append(SUFFICIENCY_TAIL);
    Ok(p)
}

/// The verdict, or the model call's failure in the agent's words.
pub fn sufficiency_outcome(llm_result: Result<SufficiencyCheckResult, String>) -> (r: Result<SufficiencyCheckResult, String>)
    ensures
        match llm_result {
            Ok(v) => r == Ok::<SufficiencyCheckResult, String>(v),
            Err(e) => r matches Err(m) && m@ == "LLM call failed: "@ + e@,
        },
{
    match llm_result {
        Ok(v) => Ok(v),
        Err(e) => Err(concat("LLM call failed: ", e.as_str())),
    }
}

} // verus!
