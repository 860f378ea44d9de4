//! The research loop as a state machine.
//!
//! The loop alternates decisions with work that only the host can do:
//! updating the session table, calling the language model, running tools,
//! reporting progress. `ResearchLoop::step` takes what the last piece of work
//! gave (a `LoopEvent`) and says what to do next (a `LoopAction`). One machine
//! serves both the background loop (which leaves a finished session waiting
//! for input) and the synchronous loop (which completes the session and
//! hands back its history).

use vstd::prelude::*;
use crate::compaction::{compaction_threshold, should_compact_history};
use crate::config::AppConfig;
use crate::platform::{new_uuid_text, now_millis, uuid_canonical_text};
use crate::stream::StreamError;
use crate::termination::{
    check_termination_conditions, consults_model, needs_model_check, termination_verdict, TerminationReason, Verdict,
    OUT_OF_RANGE_TEXT,
};
use crate::text::{concat, concat3, decimal};
use crate::tools::{is_tool_entry, tool_result_entry, ToolCallOutcome, WebsocketEvent};
use crate::types::{duplicate_choices, ConversationEntry, LlmAgentResponse, Sender, SessionData, SessionStatus, ToolChoice};

verus! {

broadcast use vstd::string::group_string_axioms;

/// Which loop the machine runs.
#[derive(Debug, Clone, Copy, PartialEq, Eq, Structural)]
pub enum LoopMode {
    /// Runs in the background; a final answer leaves the session awaiting input.
    Background,
    /// Runs for a caller that waits; a final answer completes the session and
    /// its history is handed back.
    Sync,
}

/// How the loop ended.
#[derive(Debug, PartialEq, Eq)]
pub enum LoopOutcome {
    /// Ended normally (background loop).
    Done,
    /// Ended with the session's history (synchronous loop).
    History(Vec<ConversationEntry>),
    /// Ended with an error.
    Failed(String),
}

/// Work the host is asked to do next.
#[derive(Debug)]
pub enum LoopAction {
    /// Set the session's status; answer with `StatusUpdated`.
    UpdateStatus(SessionStatus),
    /// Read the session; answer with `SessionFetched`.
    FetchSession,
    /// Append an entry to the session's history; answer with `EntryAdded`.
    AddEntry(ConversationEntry),
    /// Ask the model whether the session's conversation should end; answer
    /// with `TerminationChecked`.
    CheckTermination,
    /// Compact the session's history; answer with `Compacted`.
    Compact,
    /// Ask the conversation model about this session; answer with `ModelReplied`.
    CallModel(SessionData),
    /// Send these events to the session's clients; answer with `Acknowledged`.
    Broadcast(Vec<WebsocketEvent>),
    /// Report progress to the caller, if it asked; answer with `Acknowledged`.
    Progress { sender: String, message: String },
    /// Run this tool; answer with `ToolDispatched`.
    DispatchTool(ToolChoice),
    /// The loop is over.
    Finish(LoopOutcome),
    /// Nothing to do: the event did not fit the machine's state.
    Idle,
}

/// What the host's last piece of work gave.
#[derive(Debug)]
pub enum LoopEvent {
    Start,
    StatusUpdated(Result<(), String>),
    SessionFetched(Option<SessionData>),
    EntryAdded(Result<(), String>),
    Compacted(Result<(), String>),
    /// The model's judgement (see `evaluation::termination_decision`).
    TerminationChecked(bool),
    ModelReplied(Result<LlmAgentResponse, StreamError>),
    ToolDispatched(ToolCallOutcome),
    Acknowledged,
}

/// Where the machine stands.
#[derive(Debug)]
pub enum Phase {
    /// Waiting for `Start`.
    Ready,
    /// Waiting for the status to be set to running.
    Initializing,
    /// Waiting for the session, at the top of an iteration.
    Fetching,
    /// Waiting for the research goal to be recorded as the first message.
    AddingGoal(SessionData),
    /// Waiting for the goal to be reported.
    ReportingGoal(SessionData),
    /// Waiting for a last status update before finishing.
    Closing(LoopOutcome),
    /// Waiting for the model's judgement on ending the conversation.
    AskingTermination(SessionData),
    /// Waiting for compaction of the history.
    Compacting(SessionData),
    /// Waiting for the session after compaction.
    Refetching,
    /// Waiting for the session after a failed compaction, to see whether it
    /// is still there.
    Rechecking(SessionData),
    /// Waiting for the model's reply.
    AwaitingModel,
    /// Waiting for the agent's answer to be recorded.
    RecordingAnswer(LlmAgentResponse),
    /// Waiting for the answer to be broadcast.
    Broadcasting(LlmAgentResponse),
    /// Waiting for the answer to be reported.
    ReportedAnswer(LlmAgentResponse),
    /// Waiting for the tool count to be reported.
    ReportedTools(LlmAgentResponse),
    /// Waiting for tool `i` of the answer to run.
    Dispatching(LlmAgentResponse, usize),
    /// Waiting for the record of tool `i` to be stored.
    RecordingTool(LlmAgentResponse, usize),
    /// Waiting for the final status update.
    Finalizing,
    /// Waiting for the session whose history is the result.
    Collecting,
    /// The loop is over.
    Finished,
}

/// The research loop of one session.
pub struct ResearchLoop {
    pub mode: LoopMode,
    pub session_id: String,
    /// The instruction that opens an empty history (synchronous loop).
    pub research_goal: String,
    pub config: AppConfig,
    pub phase: Phase,
}

/// `a` finishes the loop with an error whose text is `msg`.
pub open spec fn fails_with(a: LoopAction, msg: Seq<char>) -> bool {
    a matches LoopAction::Finish(LoopOutcome::Failed(m)) && m@ == msg
}

/// `p` waits for a status update and then finishes with an error `msg`.
pub open spec fn closes_failing(p: Phase, msg: Seq<char>) -> bool {
    p matches Phase::Closing(LoopOutcome::Failed(m)) && m@ == msg
}

/// The outcome of a loop that stops on a termination rule: the background
/// loop ends normally, the synchronous loop fails with `msg`.
pub open spec fn stop_outcome(o: LoopOutcome, mode: LoopMode, msg: Seq<char>) -> bool {
    match mode {
        LoopMode::Background => o is Done,
        LoopMode::Sync => o matches LoopOutcome::Failed(m) && m@ == msg,
    }
}

/// The entry that records the agent's answer.
pub open spec fn is_agent_entry(e: ConversationEntry, resp: LlmAgentResponse, id: Seq<char>, now: i64) -> bool {
    &&& e.id@ == id
    &&& e.parent_id is None
    &&& e.depth == 0
    &&& e.sender == Sender::Agent
    &&& e.message == resp.user_answer
    &&& e.timestamp == now
    &&& e.tools@ == resp.actions@
    &&& e.attachments@.len() == 0
    &&& e.tool_choice is None
    &&& e.tool_response is None
}

/// The entry that opens a synchronous loop with its goal.
pub open spec fn is_goal_entry(e: ConversationEntry, goal: Seq<char>, id: Seq<char>, now: i64) -> bool {
    &&& e.id@ == id
    &&& e.parent_id is None
    &&& e.depth == 0
    &&& e.sender == Sender::User
    &&& e.message@ == goal
    &&& e.timestamp == now
    &&& e.tools@.len() == 0
    &&& e.attachments@.len() == 0
    &&& e.tool_choice is None
    &&& e.tool_response is None
}

/// The reply as the loop keeps it: a final answer proposes no tools.
pub open spec fn kept_reply(kept: LlmAgentResponse, resp: LlmAgentResponse) -> bool {
    &&& kept.actions@ == (if resp.is_final { Seq::empty() } else { resp.actions@ })
    &&& kept == LlmAgentResponse { actions: kept.actions, ..resp }
}

/// The events that announce an answer: the reasoning, then, for a final
/// answer, the answer itself under its title.
pub open spec fn answer_events(events: Seq<WebsocketEvent>, resp: LlmAgentResponse) -> bool {
    &&& events.len() == if resp.is_final { 2int } else { 1int }
    &&& events[0] == WebsocketEvent::ReasoningUpdate(resp.agent_reasoning)
    &&& resp.is_final ==> (events[1] matches WebsocketEvent::ResearchAnswer { title, content } && content
        == resp.user_answer && title@ == match resp.title {
        Some(t) => t@,
        None => "Research Result"@,
    })
}

/// The text of a progress report on tool use.
pub open spec fn tools_progress_text(n: nat) -> Seq<char> {
    "Using "@ + decimal(n) + " tool(s)"@
}

/// What the machine does once the tools of an answer have run (or when
/// there were none): a final answer ends the loop, else the next iteration
/// starts.
pub open spec fn after_tools(mode: LoopMode, is_final: bool, p: Phase, a: LoopAction) -> bool {
    if is_final {
        &&& p is Finalizing
        &&& a == LoopAction::UpdateStatus(match mode {
            LoopMode::Background => SessionStatus::AwaitingInput,
            LoopMode::Sync => SessionStatus::Completed,
        })
    } else {
        p is Fetching && a is FetchSession
    }
}

/// What the machine does with a session it may ask the model about.
pub open spec fn turn(id: Seq<char>, d: SessionData, p: Phase, a: LoopAction) -> bool {
    if d.research_goal is None {
        &&& a == LoopAction::UpdateStatus(SessionStatus::Error)
        &&& closes_failing(p, "LLM turn failed: Cannot process LLM turn for session "@ + id + ": No research goal found."@)
    } else {
        p is AwaitingModel && a == LoopAction::CallModel(d)
    }
}

/// What the machine does with a fetched session once the model's judgement
/// `stop` on ending it is known (or not needed): the termination rules,
/// then compaction, then a model turn.
pub open spec fn decide(mode: LoopMode, id: Seq<char>, config: AppConfig, d: SessionData, now: i64, stop: bool, p: Phase, a: LoopAction) -> bool {
    match termination_verdict(d, now, stop) {
        Verdict::BadSessionId => {
            &&& a == LoopAction::UpdateStatus(SessionStatus::Error)
            &&& closes_failing(p, "Termination check failed: "@ + ("Invalid Session ID format: "@ + d.session_id@))
        },
        Verdict::LimitOutOfRange => {
            &&& a == LoopAction::UpdateStatus(SessionStatus::Error)
            &&& p matches Phase::Closing(o) && stop_outcome(o, mode, "Configuration error: "@ + ("Invalid time limit duration: "@ + OUT_OF_RANGE_TEXT@))
        },
        Verdict::TimedOut => {
            &&& a == LoopAction::UpdateStatus(SessionStatus::Timeout)
            &&& p matches Phase::Closing(o) && stop_outcome(o, mode, "Session "@ + id + " timed out."@)
        },
        Verdict::ModelDecided => {
            &&& a == LoopAction::UpdateStatus(SessionStatus::Completed)
            &&& p matches Phase::Closing(o) && stop_outcome(o, mode, "Session "@ + id + " ended by the model's termination check."@)
        },
        Verdict::Interrupted => {
            &&& a == LoopAction::UpdateStatus(SessionStatus::Interrupted)
            &&& p matches Phase::Closing(o) && stop_outcome(o, mode, "Session "@ + id + " interrupted."@)
        },
        Verdict::AlreadyTerminal => {
            &&& p is Finished
            &&& a matches LoopAction::Finish(o) && stop_outcome(o, mode, "Session "@ + id
                + " loop entered with already terminal status: "@ + d.status.spec_unit_name() + "."@)
        },
        Verdict::Continue => if d.history@.len() > compaction_threshold(config) {
            p == Phase::Compacting(d) && a is Compact
        } else {
            turn(id, d, p, a)
        },
    }
}

/// What the machine does with a fetched session: when the id, the limit
/// and the timer pass and the conversation is not empty, it first asks the
/// model whether to end; otherwise it decides at once.
pub open spec fn checks(mode: LoopMode, id: Seq<char>, config: AppConfig, d: SessionData, now: i64, p: Phase, a: LoopAction) -> bool {
    if consults_model(d, now) {
        p == Phase::AskingTermination(d) && a is CheckTermination
    } else {
        decide(mode, id, config, d, now, false, p, a)
    }
}

/// The transition relation of the machine: from phase `p0` on `event`, at
/// time `now` and with `fresh` as the identifier for any new entry, the
/// machine moves to `p1` and asks for `a`. An event that does not fit the
/// phase changes nothing.
pub open spec fn transition(
    mode: LoopMode,
    id: Seq<char>,
    goal: Seq<char>,
    config: AppConfig,
    p0: Phase,
    event: LoopEvent,
    now: i64,
    fresh: Seq<char>,
    p1: Phase,
    a: LoopAction,
) -> bool {
    match (p0, event) {
        (Phase::Ready, LoopEvent::Start) => p1 is Initializing && a == LoopAction::UpdateStatus(
            SessionStatus::Running { progress: None },
        ),
        (Phase::Initializing, LoopEvent::StatusUpdated(Ok(()))) => p1 is Fetching && a is FetchSession,
        (Phase::Initializing, LoopEvent::StatusUpdated(Err(e))) => p1 is Finished && fails_with(
            a,
            "Failed to set session status to Running: "@ + e@,
        ),
        (Phase::Fetching, LoopEvent::SessionFetched(None)) => {
            &&& a == LoopAction::UpdateStatus(SessionStatus::Error)
            &&& closes_failing(p1, "Session "@ + id + " not found."@)
        },
        (Phase::Fetching, LoopEvent::SessionFetched(Some(d))) => if mode is Sync && d.history@.len() == 0 {
            &&& a matches LoopAction::AddEntry(e) && is_goal_entry(e, goal, fresh, now)
            &&& p1 matches Phase::AddingGoal(d2) && d2 == SessionData { history: d2.history, ..d }
                && d2.history@.len() == 1 && is_goal_entry(d2.history@[0], goal, fresh, now)
        } else {
            checks(mode, id, config, d, now, p1, a)
        },
        (Phase::AddingGoal(d), LoopEvent::EntryAdded(Err(e))) => p1 is Finished && fails_with(
            a,
            "Failed to add initial goal to history for session "@ + id + ": "@ + e@,
        ),
        (Phase::AddingGoal(d), LoopEvent::EntryAdded(Ok(()))) => {
            &&& p1 == Phase::ReportingGoal(d)
            &&& a matches LoopAction::Progress { sender, message } && sender@ == "user"@ && message@ == goal
        },
        (Phase::ReportingGoal(d), LoopEvent::Acknowledged) => checks(mode, id, config, d, now, p1, a),
        (Phase::Closing(o), LoopEvent::StatusUpdated(_)) => p1 is Finished && a == LoopAction::Finish(o),
        (Phase::Compacting(d), LoopEvent::Compacted(Ok(()))) => p1 is Refetching && a is FetchSession,
        (Phase::AskingTermination(d), LoopEvent::TerminationChecked(stop)) => decide(mode, id, config, d, now, stop, p1, a),
        (Phase::Compacting(d), LoopEvent::Compacted(Err(_))) => p1 == Phase::Rechecking(d) && a is FetchSession,
        (Phase::Rechecking(d), LoopEvent::SessionFetched(Some(_))) => turn(id, d, p1, a),
        (Phase::Rechecking(d), LoopEvent::SessionFetched(None)) => {
            &&& a == LoopAction::UpdateStatus(SessionStatus::Error)
            &&& closes_failing(p1, "Compaction failed: Session "@ + id + " disappeared after compaction."@)
        },
        (Phase::Refetching, LoopEvent::SessionFetched(Some(d))) => turn(id, d, p1, a),
        (Phase::Refetching, LoopEvent::SessionFetched(None)) => {
            &&& a == LoopAction::UpdateStatus(SessionStatus::Error)
            &&& closes_failing(p1, "Compaction failed: Session "@ + id + " disappeared after compaction."@)
        },
        (Phase::AwaitingModel, LoopEvent::ModelReplied(Err(e))) => {
            &&& a == LoopAction::UpdateStatus(SessionStatus::Error)
            &&& closes_failing(p1, "LLM turn failed: LLM call failed: "@ + e.spec_text())
        },
        (Phase::AwaitingModel, LoopEvent::ModelReplied(Ok(resp))) => {
            &&& p1 matches Phase::RecordingAnswer(kept) && kept_reply(kept, resp)
            &&& a matches LoopAction::AddEntry(e) && is_agent_entry(e, p1->RecordingAnswer_0, fresh, now)
        },
        (Phase::RecordingAnswer(resp), LoopEvent::EntryAdded(_)) => {
            &&& p1 == Phase::Broadcasting(resp)
            &&& a matches LoopAction::Broadcast(events) && answer_events(events@, resp)
        },
        (Phase::Broadcasting(resp), LoopEvent::Acknowledged) => {
            &&& p1 == Phase::ReportedAnswer(resp)
            &&& a matches LoopAction::Progress { sender, message } && sender@ == "agent"@ && message == resp.user_answer
        },
        (Phase::ReportedAnswer(resp), LoopEvent::Acknowledged) => if resp.actions@.len() > 0 {
            &&& p1 == Phase::ReportedTools(resp)
            &&& a matches LoopAction::Progress { sender, message } && sender@ == "tool"@ && message@
                == tools_progress_text(resp.actions@.len())
        } else {
            after_tools(mode, resp.is_final, p1, a)
        },
        (Phase::ReportedTools(resp), LoopEvent::Acknowledged) => if resp.actions@.len() > 0 {
            p1 == Phase::Dispatching(resp, 0) && a == LoopAction::DispatchTool(resp.actions@[0])
        } else {
            after_tools(mode, resp.is_final, p1, a)
        },
        (Phase::Dispatching(resp, i), LoopEvent::ToolDispatched(outcome)) => if i < resp.actions@.len() {
            &&& p1 == Phase::RecordingTool(resp, i)
            &&& a matches LoopAction::AddEntry(e) && is_tool_entry(e, resp.actions@[i as int], outcome, fresh, now)
        } else {
            after_tools(mode, resp.is_final, p1, a)
        },
        (Phase::RecordingTool(resp, i), LoopEvent::EntryAdded(_)) => if i + 1 < resp.actions@.len() {
            p1 == Phase::Dispatching(resp, (i + 1) as usize) && a == LoopAction::DispatchTool(
                resp.actions@[i + 1],
            )
        } else {
            after_tools(mode, resp.is_final, p1, a)
        },
        (Phase::Finalizing, LoopEvent::StatusUpdated(_)) => match mode {
            LoopMode::Background => p1 is Finished && a == LoopAction::Finish(LoopOutcome::Done),
            LoopMode::Sync => p1 is Collecting && a is FetchSession,
        },
        (Phase::Collecting, LoopEvent::SessionFetched(Some(d))) => p1 is Finished && a == LoopAction::Finish(
            LoopOutcome::History(d.history),
        ),
        (Phase::Collecting, LoopEvent::SessionFetched(None)) => p1 is Finished && fails_with(
            a,
            "Could not retrieve session "@ + id + " after completion."@,
        ),
        (p, _) => p1 == p && a is Idle,
    }
}

/// An outcome that the mode can end with: the background loop never hands
/// back a history, and the synchronous loop never ends without one unless it
/// failed.
pub open spec fn outcome_fits(mode: LoopMode, o: LoopOutcome) -> bool {
    match mode {
        LoopMode::Background => !(o is History),
        LoopMode::Sync => !(o is Done),
    }
}

/// What holds of every phase that a run reaches: a pending outcome fits the
/// mode and is never a history, a final answer carries no tools, a tool being run is one of the
/// answer's tools, and only the synchronous loop collects a history.
pub open spec fn phase_ok(mode: LoopMode, p: Phase) -> bool {
    match p {
        Phase::Closing(o) => outcome_fits(mode, o) && !(o is History),
        Phase::RecordingAnswer(resp) => resp.is_final ==> resp.actions@.len() == 0,
        Phase::Broadcasting(resp) => resp.is_final ==> resp.actions@.len() == 0,
        Phase::ReportedAnswer(resp) => resp.is_final ==> resp.actions@.len() == 0,
        Phase::ReportedTools(resp) => resp.is_final ==> resp.actions@.len() == 0,
        Phase::Dispatching(resp, i) => !resp.is_final && i < resp.actions@.len(),
        Phase::RecordingTool(resp, i) => !resp.is_final && i < resp.actions@.len(),
        Phase::Collecting => mode is Sync,
        _ => true,
    }
}

/// Every step keeps `phase_ok`: so, from `ResearchLoop::new` on, the loop
/// ends only with an outcome that fits its mode (the background loop with
/// `Done` or an error, the synchronous loop with the history or an error),
/// and no tool of a final answer is ever run.
pub proof fn lemma_step_keeps_phase_ok(
    mode: LoopMode,
    id: Seq<char>,
    goal: Seq<char>,
    config: AppConfig,
    p0: Phase,
    event: LoopEvent,
    now: i64,
    fresh: Seq<char>,
    p1: Phase,
    a: LoopAction,
)
    requires
        phase_ok(mode, p0),
        transition(mode, id, goal, config, p0, event, now, fresh, p1, a),
    ensures
        phase_ok(mode, p1),
        a matches LoopAction::Finish(o) ==> outcome_fits(mode, o),
        a is DispatchTool ==> (p1 matches Phase::Dispatching(resp, _) && !resp.is_final),
{
    match (p0, event) {
        (Phase::Fetching, LoopEvent::SessionFetched(Some(d))) => {
            if !(mode is Sync && d.history@.len() == 0) {
                lemma_checks_ok(mode, id, config, d, now, p1, a);
            }
        },
        (Phase::ReportingGoal(d), LoopEvent::Acknowledged) => {
            lemma_checks_ok(mode, id, config, d, now, p1, a);
        },
        (Phase::AskingTermination(d), LoopEvent::TerminationChecked(stop)) => {
            lemma_decide_ok(mode, id, config, d, now, stop, p1, a);
        },
        _ => {},
    }
}

/// The phases and actions that `checks` allows keep `phase_ok`.
proof fn lemma_checks_ok(mode: LoopMode, id: Seq<char>, config: AppConfig, d: SessionData, now: i64, p: Phase, a: LoopAction)
    requires
        checks(mode, id, config, d, now, p, a),
    ensures
        phase_ok(mode, p),
        a matches LoopAction::Finish(o) ==> outcome_fits(mode, o),
        !(a is DispatchTool),
{
    if !consults_model(d, now) {
        lemma_decide_ok(mode, id, config, d, now, false, p, a);
    }
}

/// The phases and actions that `decide` allows keep `phase_ok`.
proof fn lemma_decide_ok(mode: LoopMode, id: Seq<char>, config: AppConfig, d: SessionData, now: i64, stop: bool, p: Phase, a: LoopAction)
    requires
        decide(mode, id, config, d, now, stop, p, a),
    ensures
        phase_ok(mode, p),
        a matches LoopAction::Finish(o) ==> outcome_fits(mode, o),
        !(a is DispatchTool),
{
    match termination_verdict(d, now, stop) {
        Verdict::AlreadyTerminal => {
            assert(a matches LoopAction::Finish(o) && stop_outcome(o, mode, "Session "@ + id
                + " loop entered with already terminal status: "@ + d.status.spec_unit_name() + "."@));
        },
        _ => {},
    }
}

/// The model is asked only about a session that has a research goal; a
/// session without one ends the loop with an error instead.
pub proof fn lemma_model_called_only_with_goal(
    mode: LoopMode,
    id: Seq<char>,
    goal: Seq<char>,
    config: AppConfig,
    p0: Phase,
    event: LoopEvent,
    now: i64,
    fresh: Seq<char>,
    p1: Phase,
    a: LoopAction,
)
    requires
        transition(mode, id, goal, config, p0, event, now, fresh, p1, a),
        a is CallModel,
    ensures
        a->CallModel_0.research_goal is Some,
{
}

/// When the model judges that the conversation of a session whose id,
/// limit and timer pass should end, the loop marks the session completed
/// and stops as on any other termination rule: the background loop with
/// `Done`, the synchronous loop with an error (it hands back a history only
/// after a final answer); and a session that vanished while its history was
/// being compacted ends the loop with an error.
pub proof fn lemma_model_stop_and_vanishing_end_the_loop(
    mode: LoopMode,
    id: Seq<char>,
    goal: Seq<char>,
    config: AppConfig,
    d: SessionData,
    now: i64,
    fresh: Seq<char>,
    p1: Phase,
    a: LoopAction,
    q1: Phase,
    b: LoopAction,
)
    requires
        consults_model(d, now),
        transition(mode, id, goal, config, Phase::AskingTermination(d), LoopEvent::TerminationChecked(true), now, fresh, p1, a),
        transition(mode, id, goal, config, Phase::Rechecking(d), LoopEvent::SessionFetched(None), now, fresh, q1, b),
    ensures
        a == LoopAction::UpdateStatus(SessionStatus::Completed),
        p1 matches Phase::Closing(o) && stop_outcome(o, mode, "Session "@ + id + " ended by the model's termination check."@),
        b == LoopAction::UpdateStatus(SessionStatus::Error),
        closes_failing(q1, "Compaction failed: Session "@ + id + " disappeared after compaction."@),
{
}

/// The phase holds an answer of the model that is final.
pub open spec fn holds_final_answer(p: Phase) -> bool {
    match p {
        Phase::ReportedAnswer(resp) => resp.is_final,
        Phase::ReportedTools(resp) => resp.is_final,
        Phase::Dispatching(resp, _) => resp.is_final,
        Phase::RecordingTool(resp, _) => resp.is_final,
        _ => false,
    }
}

/// A history is handed back only after a final answer: in every phase a run
/// reaches (see `lemma_step_keeps_phase_ok`), the loop finishes with a
/// history only from collecting it, collects only after the final
/// status update, and reaches that update only from a final answer.
pub proof fn lemma_history_only_after_final_answer(
    mode: LoopMode,
    id: Seq<char>,
    goal: Seq<char>,
    config: AppConfig,
    p0: Phase,
    event: LoopEvent,
    now: i64,
    fresh: Seq<char>,
    p1: Phase,
    a: LoopAction,
)
    requires
        phase_ok(mode, p0),
        transition(mode, id, goal, config, p0, event, now, fresh, p1, a),
    ensures
        a matches LoopAction::Finish(LoopOutcome::History(_)) ==> p0 is Collecting,
        p1 is Collecting && !(p0 is Collecting) ==> p0 is Finalizing,
        p1 is Finalizing && !(p0 is Finalizing) ==> holds_final_answer(p0),
{
    match (p0, event) {
        (Phase::Fetching, LoopEvent::SessionFetched(Some(d))) => {
            if !(mode is Sync && d.history@.len() == 0) {
                lemma_checks_no_history(mode, id, config, d, now, p1, a);
            }
        },
        (Phase::ReportingGoal(d), LoopEvent::Acknowledged) => {
            lemma_checks_no_history(mode, id, config, d, now, p1, a);
        },
        (Phase::AskingTermination(d), LoopEvent::TerminationChecked(stop)) => {
            lemma_decide_no_history(mode, id, config, d, now, stop, p1, a);
        },
        _ => {},
    }
}

/// `checks` neither finishes with a history nor reaches the final phases.
proof fn lemma_checks_no_history(mode: LoopMode, id: Seq<char>, config: AppConfig, d: SessionData, now: i64, p: Phase, a: LoopAction)
    requires
        checks(mode, id, config, d, now, p, a),
    ensures
        !(a matches LoopAction::Finish(LoopOutcome::History(_))),
        !(p is Collecting),
        !(p is Finalizing),
{
    if !consults_model(d, now) {
        lemma_decide_no_history(mode, id, config, d, now, false, p, a);
    }
}

/// `decide` neither finishes with a history nor reaches the final phases.
proof fn lemma_decide_no_history(mode: LoopMode, id: Seq<char>, config: AppConfig, d: SessionData, now: i64, stop: bool, p: Phase, a: LoopAction)
    requires
        decide(mode, id, config, d, now, stop, p, a),
    ensures
        !(a matches LoopAction::Finish(LoopOutcome::History(_))),
        !(p is Collecting),
        !(p is Finalizing),
{
    match termination_verdict(d, now, stop) {
        Verdict::AlreadyTerminal => {
            assert(a matches LoopAction::Finish(o) && stop_outcome(o, mode, "Session "@ + id
                + " loop entered with already terminal status: "@ + d.status.spec_unit_name() + "."@));
        },
        _ => {},
    }
}

/// Reaching the final status update, the loop marks the session: a
/// synchronous run, whose answer is handed back, as `Completed`; a
/// background run, which then waits for the user, as `AwaitingInput`.
pub proof fn lemma_final_answer_sets_status(
    mode: LoopMode,
    id: Seq<char>,
    goal: Seq<char>,
    config: AppConfig,
    p0: Phase,
    event: LoopEvent,
    now: i64,
    fresh: Seq<char>,
    p1: Phase,
    a: LoopAction,
)
    requires
        transition(mode, id, goal, config, p0, event, now, fresh, p1, a),
        p1 is Finalizing,
        !(p0 is Finalizing),
    ensures
        mode is Sync ==> a == LoopAction::UpdateStatus(SessionStatus::Completed),
        mode is Background ==> a == LoopAction::UpdateStatus(SessionStatus::AwaitingInput),
{
    match (p0, event) {
        (Phase::Fetching, LoopEvent::SessionFetched(Some(d))) => {
            if !(mode is Sync && d.history@.len() == 0) {
                lemma_checks_no_history(mode, id, config, d, now, p1, a);
            }
        },
        (Phase::ReportingGoal(d), LoopEvent::Acknowledged) => {
            lemma_checks_no_history(mode, id, config, d, now, p1, a);
        },
        (Phase::AskingTermination(d), LoopEvent::TerminationChecked(stop)) => {
            lemma_decide_no_history(mode, id, config, d, now, stop, p1, a);
        },
        _ => {},
    }
}

/// A finished loop stays finished and asks for nothing, whatever happens.
pub proof fn lemma_finished_stays_finished(
    mode: LoopMode,
    id: Seq<char>,
    goal: Seq<char>,
    config: AppConfig,
    event: LoopEvent,
    now: i64,
    fresh: Seq<char>,
    p1: Phase,
    a: LoopAction,
)
    requires
        transition(mode, id, goal, config, Phase::Finished, event, now, fresh, p1, a),
    ensures
        p1 is Finished,
        a is Idle,
{
}

/// `after_tools`, carried out.
fn finish_answer(mode: LoopMode, is_final: bool) -> (r: (Phase, LoopAction))
    ensures
        after_tools(mode, is_final, r.0, r.1),
{
    if is_final {
        let status = match mode {
            LoopMode::Background => SessionStatus::AwaitingInput,
            LoopMode::Sync => SessionStatus::Completed,
        };
        (Phase::Finalizing, LoopAction::UpdateStatus(status))
    } else {
        (Phase::Fetching, LoopAction::FetchSession)
    }
}

/// `turn`, carried out.
fn start_turn(id: &str, d: SessionData) -> (r: (Phase, LoopAction))
    ensures
        turn(id@, d, r.0, r.1),
{
    if d.research_goal.is_none() {
        let m = concat3("LLM turn failed: Cannot process LLM turn for session ", id, ": No research goal found.");
        (Phase::Closing(LoopOutcome::Failed(m)), LoopAction::UpdateStatus(SessionStatus::Error))
    } else {
        (Phase::AwaitingModel, LoopAction::CallModel(d))
    }
}

/// The outcome of a stop on a termination rule, carried out.
fn stop_with(mode: LoopMode, msg: String) -> (r: LoopOutcome)
    ensures
        stop_outcome(r, mode, msg@),
{
    match mode {
        LoopMode::Background => LoopOutcome::Done,
        LoopMode::Sync => LoopOutcome::Failed(msg),
    }
}

/// `decide`, carried out.
fn run_decide(mode: LoopMode, id: &str, config: &AppConfig, d: SessionData, now: i64, stop: bool) -> (r: (Phase, LoopAction))
    ensures
        decide(mode, id@, *config, d, now, stop, r.0, r.1),
{
    match check_termination_conditions(&d, now, stop) {
        Err(e) => {
            let m = concat("Termination check failed: ", e.as_str());
            (Phase::Closing(LoopOutcome::Failed(m)), LoopAction::UpdateStatus(SessionStatus::Error))
        },
        Ok(Some(TerminationReason::ConfigError(e))) => {
            let m = concat("Configuration error: ", e.as_str());
            (Phase::Closing(stop_with(mode, m)), LoopAction::UpdateStatus(SessionStatus::Error))
        },
        Ok(Some(TerminationReason::Timeout)) => {
            let m = concat3("Session ", id, " timed out.");
            (Phase::Closing(stop_with(mode, m)), LoopAction::UpdateStatus(SessionStatus::Timeout))
        },
        Ok(Some(TerminationReason::ModelDecided)) => {
            let m = concat3("Session ", id, " ended by the model's termination check.");
            (Phase::Closing(stop_with(mode, m)), LoopAction::UpdateStatus(SessionStatus::Completed))
        },
        Ok(Some(TerminationReason::Interrupted)) => {
            let m = concat3("Session ", id, " interrupted.");
            (Phase::Closing(stop_with(mode, m)), LoopAction::UpdateStatus(SessionStatus::Interrupted))
        },
        Ok(Some(TerminationReason::AlreadyTerminal(s))) => {
            let mut m = concat3("Session ", id, " loop entered with already terminal status: ");
            let name = s.unit_name();
            m.append(name.as_str());
            m.append(".");
            (Phase::Finished, LoopAction::Finish(stop_with(mode, m)))
        },
        Ok(None) => {
            if should_compact_history(&d.history, config) {
                (Phase::Compacting(d), LoopAction::Compact)
            } else {
                start_turn(id, d)
            }
        },
    }
}

/// `checks`, carried out.
fn run_checks(mode: LoopMode, id: &str, config: &AppConfig, d: SessionData, now: i64) -> (r: (Phase, LoopAction))
    ensures
        checks(mode, id@, *config, d, now, r.0, r.1),
{
    if needs_model_check(&d, now) {
        (Phase::AskingTermination(d), LoopAction::CheckTermination)
    } else {
        run_decide(mode, id, config, d, now, false)
    }
}

/// The events announcing an answer, built.
fn build_answer_events(resp: &LlmAgentResponse) -> (r: Vec<WebsocketEvent>)
    ensures
        answer_events(r@, *resp),
{
    let mut events: Vec<WebsocketEvent> = Vec::new();
    events.push(WebsocketEvent::ReasoningUpdate(resp.agent_reasoning.clone()));
    if resp.is_final {
        let title = match &resp.title {
            Some(t) => t.clone(),
            None => String::from_str("Research Result"),
        };
        events.push(WebsocketEvent::ResearchAnswer { title, content: resp.user_answer.clone() });
    }
    events
}

impl ResearchLoop {
    /// A machine for the given session, ready to start.
    pub fn new(mode: LoopMode, session_id: String, research_goal: String, config: AppConfig) -> (r: ResearchLoop)
        ensures
            r.mode == mode,
            r.session_id == session_id,
            r.research_goal == research_goal,
            r.config == config,
            r.phase is Ready,
    {
        ResearchLoop { mode, session_id, research_goal, config, phase: Phase::Ready }
    }

    /// One step of the loop at time `now`, with `fresh` as the identifier of
    /// any entry it creates.
    pub fn step_at(&mut self, event: LoopEvent, now: i64, fresh: String) -> (a: LoopAction)
        ensures
            final(self).mode == old(self).mode,
            final(self).session_id == old(self).session_id,
            final(self).research_goal == old(self).research_goal,
            final(self).config == old(self).config,
            transition(
                old(self).mode,
                old(self).session_id@,
                old(self).research_goal@,
                old(self).config,
                old(self).phase,
                event,
                now,
                fresh@,
                final(self).phase,
                a,
            ),
    {
        let mut phase = Phase::Finished;
        std::mem::swap(&mut phase, &mut self.phase);
        let mode = self.mode;
        let (next, action) = match (phase, event) {
            (Phase::Ready, LoopEvent::Start) => (
                Phase::Initializing,
                LoopAction::UpdateStatus(SessionStatus::Running { progress: None }),
            ),
            (Phase::Initializing, LoopEvent::StatusUpdated(Ok(()))) => (Phase::Fetching, LoopAction::FetchSession),
            (Phase::Initializing, LoopEvent::StatusUpdated(Err(e))) => (
                Phase::Finished,
                LoopAction::Finish(LoopOutcome::Failed(concat("Failed to set session status to Running: ", e.as_str()))),
            ),
            (Phase::Fetching, LoopEvent::SessionFetched(None)) => (
                Phase::Closing(LoopOutcome::Failed(concat3("Session ", self.session_id.as_str(), " not found."))),
                LoopAction::UpdateStatus(SessionStatus::Error),
            ),
            (Phase::Fetching, LoopEvent::SessionFetched(Some(mut d))) => {
                let is_sync = match mode {
                    LoopMode::Sync => true,
                    LoopMode::Background => false,
                };
                if is_sync && d.history.len() == 0 {
                    let entry = ConversationEntry::plain(fresh.clone(), Sender::User, self.research_goal.clone(), now);
                    let copy = ConversationEntry::plain(fresh.clone(), Sender::User, self.research_goal.clone(), now);
                    let ghost d0 = d;
                    d.history.push(copy);
                    assert(d == SessionData { history: d.history, ..d0 });
                    (Phase::AddingGoal(d), LoopAction::AddEntry(entry))
                } else {
                    run_checks(mode, self.session_id.as_str(), &self.config, d, now)
                }
            },
            (Phase::AddingGoal(d), LoopEvent::EntryAdded(Err(e))) => {
                let mut m = concat3("Failed to add initial goal to history for session ", self.session_id.as_str(), ": ");
                m.append(e.as_str());
                (Phase::Finished, LoopAction::Finish(LoopOutcome::Failed(m)))
            },
            (Phase::AddingGoal(d), LoopEvent::EntryAdded(Ok(()))) => (
                Phase::ReportingGoal(d),
                LoopAction::Progress { sender: String::from_str("user"), message: self.research_goal.clone() },
            ),
            (Phase::ReportingGoal(d), LoopEvent::Acknowledged) => run_checks(
                mode,
                self.session_id.as_str(),
                &self.config,
                d,
                now,
            ),
            (Phase::Closing(o), LoopEvent::StatusUpdated(_)) => (Phase::Finished, LoopAction::Finish(o)),
            (Phase::Compacting(d), LoopEvent::Compacted(Ok(()))) => (Phase::Refetching, LoopAction::FetchSession),
            (Phase::AskingTermination(d), LoopEvent::TerminationChecked(stop)) => run_decide(
                mode,
                self.session_id.as_str(),
                &self.config,
                d,
                now,
                stop,
            ),
            (Phase::Compacting(d), LoopEvent::Compacted(Err(_))) => (Phase::Rechecking(d), LoopAction::FetchSession),
            (Phase::Rechecking(d), LoopEvent::SessionFetched(Some(_))) => start_turn(self.session_id.as_str(), d),
            (Phase::Rechecking(d), LoopEvent::SessionFetched(None)) => (
                Phase::Closing(LoopOutcome::Failed(concat3(
                    "Compaction failed: Session ",
                    self.session_id.as_str(),
                    " disappeared after compaction.",
                ))),
                LoopAction::UpdateStatus(SessionStatus::Error),
            ),
            (Phase::Refetching, LoopEvent::SessionFetched(Some(d))) => start_turn(self.session_id.as_str(), d),
            (Phase::Refetching, LoopEvent::SessionFetched(None)) => (
                Phase::Closing(LoopOutcome::Failed(concat3(
                    "Compaction failed: Session ",
                    self.session_id.as_str(),
                    " disappeared after compaction.",
                ))),
                LoopAction::UpdateStatus(SessionStatus::Error),
            ),
            (Phase::AwaitingModel, LoopEvent::ModelReplied(Err(e))) => {
                let text = e.to_text();
                let m = concat("LLM turn failed: LLM call failed: ", text.as_str());
                (Phase::Closing(LoopOutcome::Failed(m)), LoopAction::UpdateStatus(SessionStatus::Error))
            },
            (Phase::AwaitingModel, LoopEvent::ModelReplied(Ok(mut resp))) => {
                let ghost r0 = resp;
                if resp.is_final {
                    resp.actions.clear();
                }
                assert(resp == LlmAgentResponse { actions: resp.actions, ..r0 });
                let entry = ConversationEntry {
                    id: fresh,
                    parent_id: None,
                    depth: 0,
                    sender: Sender::Agent,
                    message: resp.user_answer.clone(),
                    timestamp: now,
                    tools: duplicate_choices(&resp.actions),
                    attachments: Vec::new(),
                    tool_choice: None,
                    tool_response: None,
                };
                (Phase::RecordingAnswer(resp), LoopAction::AddEntry(entry))
            },
            (Phase::RecordingAnswer(resp), LoopEvent::EntryAdded(_)) => {
                let events = build_answer_events(&resp);
                (Phase::Broadcasting(resp), LoopAction::Broadcast(events))
            },
            (Phase::Broadcasting(resp), LoopEvent::Acknowledged) => {
                let message = resp.user_answer.clone();
                (Phase::ReportedAnswer(resp), LoopAction::Progress { sender: String::from_str("agent"), message })
            },
            (Phase::ReportedAnswer(resp), LoopEvent::Acknowledged) => {
                if resp.actions.len() > 0 {
                    let count = crate::text::decimal_text(resp.actions.len());
                    let message = concat3("Using ", count.as_str(), " tool(s)");
                    (Phase::ReportedTools(resp), LoopAction::Progress { sender: String::from_str("tool"), message })
                } else {
                    finish_answer(mode, resp.is_final)
                }
            },
            (Phase::ReportedTools(resp), LoopEvent::Acknowledged) => {
                if resp.actions.len() > 0 {
                    let choice = resp.actions[0].duplicate();
                    (Phase::Dispatching(resp, 0), LoopAction::DispatchTool(choice))
                } else {
                    finish_answer(mode, resp.is_final)
                }
            },
            (Phase::Dispatching(resp, i), LoopEvent::ToolDispatched(outcome)) => {
                if i < resp.actions.len() {
                    let entry = tool_result_entry(&resp.actions[i], outcome, fresh, now);
                    (Phase::RecordingTool(resp, i), LoopAction::AddEntry(entry))
                } else {
                    finish_answer(mode, resp.is_final)
                }
            },
            (Phase::RecordingTool(resp, i), LoopEvent::EntryAdded(_)) => {
                if i < resp.actions.len() && i + 1 < resp.actions.len() {
                    let choice = resp.actions[i + 1].duplicate();
                    (Phase::Dispatching(resp, i + 1), LoopAction::DispatchTool(choice))
                } else {
                    finish_answer(mode, resp.is_final)
                }
            },
            (Phase::Finalizing, LoopEvent::StatusUpdated(_)) => match mode {
                LoopMode::Background => (Phase::Finished, LoopAction::Finish(LoopOutcome::Done)),
                LoopMode::Sync => (Phase::Collecting, LoopAction::FetchSession),
            },
            (Phase::Collecting, LoopEvent::SessionFetched(Some(d))) => (
                Phase::Finished,
                LoopAction::Finish(LoopOutcome::History(d.history)),
            ),
            (Phase::Collecting, LoopEvent::SessionFetched(None)) => (
                Phase::Finished,
                LoopAction::Finish(LoopOutcome::Failed(concat3(
                    "Could not retrieve session ",
                    self.session_id.as_str(),
                    " after completion.",
                ))),
            ),
            (p, _) => (p, LoopAction::Idle),
        };
        self.phase = next;
        action
    }

    /// One step of the loop, at the current time and with a fresh random
    /// identifier for any entry it creates.
    pub fn step(&mut self, event: LoopEvent) -> (a: LoopAction)
        ensures
            final(self).mode == old(self).mode,
            final(self).session_id == old(self).session_id,
            final(self).research_goal == old(self).research_goal,
            final(self).config == old(self).config,
            exists|now: i64, fresh: Seq<char>|
                uuid_canonical_text(fresh) == Some(fresh) && fresh.len() == 36 && transition(
                    old(self).mode,
                    old(self).session_id@,
                    old(self).research_goal@,
                    old(self).config,
                    old(self).phase,
                    event,
                    now,
                    fresh,
                    final(self).phase,
                    a,
                ),
    {
        let now = now_millis();
        let fresh = new_uuid_text();
        self.step_at(event, now, fresh)
    }
}

} // verus!
