//! The conditions under which the research loop stops before asking the
//! model again.

use vstd::prelude::*;
use crate::platform::{fits_time_delta, parse_uuid, uuid_canonical_text};
use crate::text::concat;
use crate::types::{SessionData, SessionStatus};

verus! {

broadcast use vstd::string::group_string_axioms;

/// Why the research loop stops.
#[derive(Debug, Clone, PartialEq, Eq)]
pub enum TerminationReason {
    Timeout,
    Interrupted,
    AlreadyTerminal(SessionStatus),
    ConfigError(String),
    /// The model judged that the conversation should end.
    ModelDecided,
}

/// The message `chrono` gives for a duration it cannot represent.
pub const OUT_OF_RANGE_TEXT: &'static str = "Source duration value is out of range for the target type";

/// The session has run longer than its time limit.
pub open spec fn timed_out(d: SessionData, now: i64) -> bool {
    (now - d.created_at) * 1_000_000 > d.config.time_limit.spec_total_nanos()
}

/// The session's time limit is more than `chrono` can hold.
pub open spec fn limit_out_of_range(d: SessionData) -> bool {
    d.config.time_limit.spec_total_nanos() > i64::MAX as int * 1_000_000
}

/// A status that ends the loop as it stands.
pub open spec fn is_terminal_status(s: SessionStatus) -> bool {
    s is Completed || s is Error || s is Timeout
}

/// Which termination rule applies to a session at a given time.
pub enum Verdict {
    BadSessionId,
    LimitOutOfRange,
    TimedOut,
    ModelDecided,
    Interrupted,
    AlreadyTerminal,
    Continue,
}

/// The model is consulted on a session whose id, limit and timer pass and
/// whose conversation is not empty.
pub open spec fn consults_model(d: SessionData, now: i64) -> bool {
    &&& uuid_canonical_text(d.session_id@) is Some
    &&& !limit_out_of_range(d)
    &&& !timed_out(d, now)
    &&& d.history@.len() > 0
}

/// The first rule after the id check, in the order of
/// `check_termination_conditions`, that applies to `d` at `now` when the
/// model's judgement is `model_stop`.
pub open spec fn verdict_for_valid_id(d: SessionData, now: i64, model_stop: bool) -> Verdict {
    if limit_out_of_range(d) {
        Verdict::LimitOutOfRange
    } else if timed_out(d, now) {
        Verdict::TimedOut
    } else if d.history@.len() > 0 && model_stop {
        Verdict::ModelDecided
    } else if d.status is Interrupted {
        Verdict::Interrupted
    } else if is_terminal_status(d.status) {
        Verdict::AlreadyTerminal
    } else {
        Verdict::Continue
    }
}

/// The first rule, in the order of `check_termination_conditions`, that
/// applies to `d` at `now` when the model's judgement is `model_stop`.
pub open spec fn termination_verdict(d: SessionData, now: i64, model_stop: bool) -> Verdict {
    if uuid_canonical_text(d.session_id@) is None {
        Verdict::BadSessionId
    } else {
        verdict_for_valid_id(d, now, model_stop)
    }
}

/// The rules that follow the id check, in order: the time limit must be
/// representable (else a configuration error); the time limit; the model's
/// judgement `model_stop`, when the conversation is not empty; an
/// interruption; a terminal status. `None` means the loop goes on.
pub fn check_termination_rules(session_data: &SessionData, now: i64, model_stop: bool) -> (r: Option<TerminationReason>)
    ensures
        match verdict_for_valid_id(*session_data, now, model_stop) {
            Verdict::LimitOutOfRange => r matches Some(TerminationReason::ConfigError(m)) && m@
                == "Invalid time limit duration: "@ + OUT_OF_RANGE_TEXT@,
            Verdict::TimedOut => r == Some(TerminationReason::Timeout),
            Verdict::ModelDecided => r == Some(TerminationReason::ModelDecided),
            Verdict::Interrupted => r == Some(TerminationReason::Interrupted),
            Verdict::AlreadyTerminal => r == Some(TerminationReason::AlreadyTerminal(session_data.status)),
            _ => r is None,
        },
{
    if !fits_time_delta(&session_data.config.time_limit) {
        return Some(TerminationReason::ConfigError(concat("Invalid time limit duration: ", OUT_OF_RANGE_TEXT)));
    }
    let elapsed_ns: i128 = (now as i128 - session_data.created_at as i128) * 1_000_000;
    let limit_ns: i128 = session_data.config.time_limit.as_secs() as i128 * 1_000_000_000
        + session_data.config.time_limit.subsec_nanos() as i128;
    if elapsed_ns > limit_ns {
        return Some(TerminationReason::Timeout);
    }
    if session_data.history.len() > 0 && model_stop {
        return Some(TerminationReason::ModelDecided);
    }
    match &session_data.status {
        SessionStatus::Interrupted => Some(TerminationReason::Interrupted),
        SessionStatus::Completed | SessionStatus::Error | SessionStatus::Timeout => Some(
            TerminationReason::AlreadyTerminal(session_data.status.duplicate()),
        ),
        _ => None,
    }
}

/// Checks, in order: that the session id is a UUID (else an error), then
/// the rules of `check_termination_rules`, with `model_stop` the model's
/// judgement on whether the conversation should end (see
/// `evaluation::termination_decision`). `Ok(None)` means the loop goes on.
pub fn check_termination_conditions(
    session_data: &SessionData,
    now: i64,
    model_stop: bool,
) -> (r: Result<Option<TerminationReason>, String>)
    ensures
        match termination_verdict(*session_data, now, model_stop) {
            Verdict::BadSessionId => r matches Err(e) && e@ == "Invalid Session ID format: "@ + session_data.session_id@,
            Verdict::LimitOutOfRange => r matches Ok(Some(TerminationReason::ConfigError(m))) && m@
                == "Invalid time limit duration: "@ + OUT_OF_RANGE_TEXT@,
            Verdict::TimedOut => r == Ok::<Option<TerminationReason>, String>(Some(TerminationReason::Timeout)),
            Verdict::ModelDecided => r == Ok::<Option<TerminationReason>, String>(
                Some(TerminationReason::ModelDecided),
            ),
            Verdict::Interrupted => r == Ok::<Option<TerminationReason>, String>(
                Some(TerminationReason::Interrupted),
            ),
            Verdict::AlreadyTerminal => r == Ok::<Option<TerminationReason>, String>(
                Some(TerminationReason::AlreadyTerminal(session_data.status)),
            ),
            Verdict::Continue => r == Ok::<Option<TerminationReason>, String>(None),
        },
{
    if parse_uuid(session_data.session_id.as_str()).is_none() {
        return Err(concat("Invalid Session ID format: ", session_data.session_id.as_str()));
    }
    Ok(check_termination_rules(session_data, now, model_stop))
}

/// Whether the model is to be consulted before the remaining rules: the
/// id, the limit and the timer pass, and the conversation is not empty.
pub fn needs_model_check(session_data: &SessionData, now: i64) -> (r: bool)
    ensures
        r == consults_model(*session_data, now),
{
    match check_termination_conditions(session_data, now, false) {
        Err(_) => false,
        Ok(Some(TerminationReason::ConfigError(_))) => false,
        Ok(Some(TerminationReason::Timeout)) => false,
        _ => session_data.history.len() > 0,
    }
}

} // verus!
