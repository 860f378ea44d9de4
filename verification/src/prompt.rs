//! The message list sent to the language model for one research turn.

use vstd::prelude::*;
use crate::types::{ConversationEntry, Message, Sender, SessionData, ToolChoice, ToolDefinition};

verus! {

broadcast use vstd::string::group_string_axioms;

/// Opening of the default system prompt.
pub const PROMPT_HEAD: &'static str = "You are a helpful Narrativ.io research assistant operating in two modes: Conversation and Deep Research.\n**Conversation Mode:** Engage in standard dialogue and answer directly.\n**Deep Research Mode:** You have access to the following tools (built-in and external):\n";

/// What the default system prompt says when the session defines no tools.
pub const NO_TOOLS_LINE: &'static str = "(No tools are currently configured for your use in this session.)\n";

/// Closing instructions of the default system prompt.
pub const PROMPT_TAIL: &'static str = "To call a tool, return exactly JSON: { \"tool\": \"tool_name\", \"parameters\": { ... } }.\nAfter calling a tool, await its results before proceeding.\nYou can choose multiple tools in a single answer and often that's the preferredn way to increase the speed of the research.\nOnly set `is_final: true` for the final answer when you are confident no further tools are needed.\nProvide reasoning for all tool choices and responses.";

/// Error when there is no history to prompt with.
pub const EMPTY_HISTORY_ERROR: &'static str = "Cannot build prompt: Conversation history is empty.";

/// One line of the tool listing.
pub open spec fn tool_line(d: ToolDefinition) -> Seq<char> {
    "- "@ + d.name@ + ": "@ + d.description@ + " Parameters: "@ + d.parameters_json_schema@ + "\n"@
}

/// The lines of all tool definitions, in order.
pub open spec fn tool_lines(defs: Seq<ToolDefinition>) -> Seq<char>
    decreases defs.len(),
{
    if defs.len() == 0 {
        Seq::empty()
    } else {
        tool_lines(defs.drop_last()) + tool_line(defs.last())
    }
}

/// The system prompt used when the session sets none.
pub open spec fn default_system_prompt(defs: Seq<ToolDefinition>) -> Seq<char> {
    PROMPT_HEAD@ + (if defs.len() == 0 { NO_TOOLS_LINE@ } else { tool_lines(defs) }) + PROMPT_TAIL@
}

/// The note that lists the tools an agent turn proposed.
pub open spec fn proposed_actions(tools: Seq<ToolChoice>) -> Seq<char>
    decreases tools.len(),
{
    if tools.len() == 0 {
        Seq::empty()
    } else {
        proposed_actions(tools.drop_last()) + "\\n- tool execution "@ + tools.last().parameters@
    }
}

/// Role under which a history entry is shown to the model.
pub open spec fn entry_role(e: ConversationEntry) -> Seq<char> {
    match e.sender {
        Sender::User => "user"@,
        Sender::Agent | Sender::Assistant => "assistant"@,
        Sender::Tool | Sender::System => "system"@,
    }
}

/// Content under which a history entry is shown to the model.
pub open spec fn entry_content(e: ConversationEntry) -> Seq<char> {
    match e.sender {
        Sender::Agent => if e.tools@.len() == 0 {
            e.message@
        } else {
            e.message@ + "\\n\\n*Agent proposed actions:*"@ + proposed_actions(e.tools@)
        },
        Sender::Tool => "*Tool Result:*\\n"@ + e.message@,
        _ => e.message@,
    }
}

/// How many messages come before the history: the system prompt, and the
/// goal when there is one.
pub open spec fn prelude_len(d: SessionData) -> int {
    if d.research_goal is Some { 2 } else { 1 }
}

/// `ms` is the prompt for `d`: system prompt, goal, then one message per
/// history entry.
pub open spec fn is_prompt_for(d: SessionData, ms: Seq<Message>) -> bool {
    let p = prelude_len(d);
    &&& ms.len() == p + d.history@.len()
    &&& Message::spec_with_role("system"@, match d.system_message {
        Some(s) => s@,
        None => default_system_prompt(d.tool_definitions@),
    }, ms[0])
    &&& (d.research_goal matches Some(g) ==> Message::spec_with_role(
        "system"@,
        "Current Research Goal: "@ + g@,
        ms[1],
    ))
    &&& forall|i: int| 0 <= i < d.history@.len() ==> Message::spec_with_role(
        entry_role(d.history@[i]),
        entry_content(d.history@[i]),
        #[trigger] ms[p + i],
    )
}

/// The default system prompt for the given tool definitions.
pub fn build_default_system_prompt(defs: &Vec<ToolDefinition>) -> (r: String)
    ensures
        r@ == default_system_prompt(defs@),
{
    let mut out = String::from_str(PROMPT_HEAD);
    if defs.len() == 0 {
        out.append(NO_TOOLS_LINE);
    } else {
        let mut i: usize = 0;
        while i < defs.len()
            invariant
                i <= defs.len(),
                out@ == PROMPT_HEAD@ + tool_lines(defs@.take(i as int)),
            decreases defs.len() - i,
        {
            let d = &defs[i];
            out.append("- ");
            out.append(d.name.as_str());
            out.append(": ");
            out.append(d.description.as_str());
            out.append(" Parameters: ");
            out.append(d.parameters_json_schema.as_str());
            out.append("\n");
            proof {
                assert(defs@.take(i + 1).drop_last() =~= defs@.take(i as int));
                assert(PROMPT_HEAD@ + tool_lines(defs@.take(i + 1)) =~= PROMPT_HEAD@ + tool_lines(
                    defs@.take(i as int),
                ) + tool_line(defs@[i as int]));
            }
            i = i + 1;
        }
        assert(defs@.take(defs.len() as int) =~= defs@);
    }
    out.append(PROMPT_TAIL);
    out
}

/// The note listing the proposed tools of an agent entry.
fn build_proposed_actions(tools: &Vec<ToolChoice>) -> (r: String)
    ensures
        r@ == proposed_actions(tools@),
{
    let mut out = String::new();
    let mut i: usize = 0;
    while i < tools.len()
        invariant
            i <= tools.len(),
            out@ == proposed_actions(tools@.take(i as int)),
        decreases tools.len() - i,
    {
        out.append("\\n- tool execution ");
        out.append(tools[i].parameters.as_str());
        proof {
            assert(tools@.take(i + 1).drop_last() =~= tools@.take(i as int));
        }
        i = i + 1;
    }
    assert(tools@.take(tools.len() as int) =~= tools@);
    out
}

/// The message under which one history entry is shown to the model.
pub fn entry_to_message(e: &ConversationEntry) -> (r: Message)
    ensures
        Message::spec_with_role(entry_role(*e), entry_content(*e), r),
{
    match e.sender {
        Sender::User => Message::user(e.message.clone()),
        Sender::Agent => {
            let mut content = e.message.clone();
            if e.tools.len() > 0 {
                content.append("\\n\\n*Agent proposed actions:*");
                let note = build_proposed_actions(&e.tools);
                content.append(note.as_str());
            }
            Message::assistant(content)
        },
        Sender::Tool => {
            let mut content = String::from_str("*Tool Result:*\\n");
            content.append(e.message.as_str());
            Message::system(content)
        },
        Sender::System => Message::system(e.message.clone()),
        Sender::Assistant => Message::assistant(e.message.clone()),
    }
}

/// Builds the messages for the model: the session's system prompt (or the
/// default one listing its tools), the research goal if set, then the whole
/// history. Fails when the history is empty.
pub fn build_llm_prompt(session_data: &SessionData) -> (r: Result<Vec<Message>, String>)
    ensures
        match r {
            Ok(ms) => session_data.history@.len() > 0 && is_prompt_for(*session_data, ms@),
            Err(e) => session_data.history@.len() == 0 && e@ == EMPTY_HISTORY_ERROR@,
        },
{
    let mut messages: Vec<Message> = Vec::new();
    match &session_data.system_message {
        Some(s) => messages.push(Message::system(s.clone())),
        None => messages.push(Message::system(build_default_system_prompt(&session_data.tool_definitions))),
    }
    match &session_data.research_goal {
        Some(g) => {
            let mut content = String::from_str("Current Research Goal: ");
            content.append(g.as_str());
            messages.push(Message::system(content));
        },
        None => {},
    }
    if session_data.history.len() == 0 {
        return Err(String::from_str(EMPTY_HISTORY_ERROR));
    }
    let ghost p = prelude_len(*session_data);
    let ghost head = messages@;
    let mut i: usize = 0;
    while i < session_data.history.len()
        invariant
            p == prelude_len(*session_data),
            head.len() == p,
            i <= session_data.history.len(),
            messages@.len() == p + i,
            forall|j: int| 0 <= j < p ==> messages@[j] == head[j],
            Message::spec_with_role("system"@, match session_data.system_message {
                Some(s) => s@,
                None => default_system_prompt(session_data.tool_definitions@),
            }, head[0]),
            session_data.research_goal matches Some(g) ==> Message::spec_with_role(
                "system"@,
                "Current Research Goal: "@ + g@,
                head[1],
            ),
            forall|j: int| 0 <= j < i ==> Message::spec_with_role(
                entry_role(session_data.history@[j]),
                entry_content(session_data.history@[j]),
                #[trigger] messages@[p + j],
            ),
        decreases session_data.history.len() - i,
    {
        let m = entry_to_message(&session_data.history[i]);
        messages.push(m);
        i = i + 1;
    }
    Ok(messages)
}

} // verus!
