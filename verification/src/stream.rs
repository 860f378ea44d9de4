//! Preparation of the single prompt text sent to the conversation model.

use vstd::prelude::*;
use crate::prompt::{build_llm_prompt, entry_content, entry_role, default_system_prompt, prelude_len, EMPTY_HISTORY_ERROR};
use crate::text::{joined, join_strings, views};
use crate::types::{Message, SessionData};

verus! {

broadcast use vstd::string::group_string_axioms;

/// Errors of a conversation turn with the model.
#[derive(Debug, Clone, PartialEq, Eq)]
pub enum StreamError {
    ApiError(String),
    NetworkError(String),
    InternalError(String),
    PromptBuildError(String),
    MissingApiKey,
    LlmCallFailed(String),
    ConfigError(String),
}

impl StreamError {
    /// The error's message.
    pub open spec fn spec_text(self) -> Seq<char> {
        match self {
            StreamError::ApiError(s) => "LLM API error: "@ + s@,
            StreamError::NetworkError(s) => "Network error during LLM call: "@ + s@,
            StreamError::InternalError(s) => "Internal processing error: "@ + s@,
            StreamError::PromptBuildError(s) => "Failed to build LLM prompt: "@ + s@,
            StreamError::MissingApiKey => "Missing API key for LLM"@,
            StreamError::LlmCallFailed(s) => "LLM typed call failed: "@ + s@,
            StreamError::ConfigError(s) => "Configuration error: "@ + s@,
        }
    }

    /// The error's message.
    pub fn to_text(&self) -> (r: String)
        ensures
            r@ == self.spec_text(),
    {
        match self {
            StreamError::ApiError(s) => crate::text::concat("LLM API error: ", s.as_str()),
            StreamError::NetworkError(s) => crate::text::concat("Network error during LLM call: ", s.as_str()),
            StreamError::InternalError(s) => crate::text::concat("Internal processing error: ", s.as_str()),
            StreamError::PromptBuildError(s) => crate::text::concat("Failed to build LLM prompt: ", s.as_str()),
            StreamError::MissingApiKey => String::from_str("Missing API key for LLM"),
            StreamError::LlmCallFailed(s) => crate::text::concat("LLM typed call failed: ", s.as_str()),
            StreamError::ConfigError(s) => crate::text::concat("Configuration error: ", s.as_str()),
        }
    }
}

/// Error text when no conversation model is configured.
pub const NO_MODELS_ERROR: &'static str = "No conversation models configured in LlmConfig.";

/// Line `i` of the prompt text for `d`: a message's role, a colon and its
/// content.
pub open spec fn prompt_line(d: SessionData, i: int) -> Seq<char> {
    let p = prelude_len(d);
    if i == 0 {
        "system"@ + ": "@ + match d.system_message {
            Some(s) => s@,
            None => default_system_prompt(d.tool_definitions@),
        }
    } else if i < p {
        "system"@ + ": "@ + ("Current Research Goal: "@ + d.research_goal->0@)
    } else {
        entry_role(d.history@[i - p]) + ": "@ + entry_content(d.history@[i - p])
    }
}

/// The prompt text for `d`: its lines joined by a backslash and an `n`.
pub open spec fn prompt_text(d: SessionData) -> Seq<char> {
    joined(Seq::new((prelude_len(d) + d.history@.len()) as nat, |i: int| prompt_line(d, i)), "\\n"@)
}

/// Builds the prompt text for a conversation turn, or says why it cannot:
/// an empty history, or no model to send it to.
pub fn prepare_conversation_prompt(session_data: &SessionData, models: &Vec<String>) -> (r: Result<String, StreamError>)
    ensures
        session_data.history@.len() == 0 ==> r == Err::<String, StreamError>(
            StreamError::PromptBuildError(r->Err_0->PromptBuildError_0),
        ) && r->Err_0->PromptBuildError_0@ == EMPTY_HISTORY_ERROR@,
        session_data.history@.len() > 0 && models@.len() == 0 ==> (r matches Err(StreamError::ConfigError(m))
            && m@ == NO_MODELS_ERROR@),
        session_data.history@.len() > 0 && models@.len() > 0 ==> (r matches Ok(t) && t@ == prompt_text(*session_data)),
{
    let messages = match build_llm_prompt(session_data) {
        Ok(ms) => {
            if ms.len() == 0 {
                return Err(StreamError::PromptBuildError(String::from_str("No messages found to build prompt.")));
            }
            ms
        },
        Err(e) => {
            return Err(StreamError::PromptBuildError(e));
        },
    };
    let ghost lines = Seq::new(
        (prelude_len(*session_data) + session_data.history@.len()) as nat,
        |i: int| prompt_line(*session_data, i),
    );
    let mut parts: Vec<String> = Vec::new();
    let mut i: usize = 0;
    while i < messages.len()
        invariant
            crate::prompt::is_prompt_for(*session_data, messages@),
            lines.len() == messages@.len(),
            forall|k: int| 0 <= k < lines.len() ==> #[trigger] lines[k] == prompt_line(*session_data, k),
            i <= messages.len(),
            parts@.len() == i,
            forall|k: int| 0 <= k < i ==> #[trigger] parts@[k]@ == lines[k],
        decreases messages.len() - i,
    {
        let mut line = messages[i].role.clone();
        line.append(": ");
        line.append(messages[i].content.as_str());
        proof {
            let p = prelude_len(*session_data);
            if i as int >= p {
                assert(Message::spec_with_role(
                    entry_role(session_data.history@[i - p]),
                    entry_content(session_data.history@[i - p]),
                    messages@[p + (i - p)],
                ));
            }
        }
        parts.push(line);
        i = i + 1;
    }
    assert(views(parts@) =~= lines);
    let prompt = join_strings(&parts, "\\n");
    proof {
        reveal_strlit(": ");
        crate::text::lemma_joined_ends_with_last(lines, "\\n"@);
        assert(lines.last().len() >= 2);
    }
    if prompt.unicode_len() == 0 {
        return Err(StreamError::PromptBuildError(String::from_str("Constructed prompt string is empty.")));
    }
    if models.len() == 0 {
        return Err(StreamError::ConfigError(String::from_str(NO_MODELS_ERROR)));
    }
    Ok(prompt)
}

} // verus!
