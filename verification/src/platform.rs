//! Calls into `uuid` and `chrono`, with the contracts that the rest of the
//! library relies on.

use vstd::prelude::*;
use crate::types::TimeLimit;

verus! {

/// The text that `uuid::Uuid::parse_str` followed by `to_string` yields for
/// `text`, or `None` where `parse_str` refuses it.
pub uninterp spec fn uuid_canonical_text(text: Seq<char>) -> Option<Seq<char>>;

/// Parses `text` with `uuid::Uuid::parse_str`; on success gives back the
/// UUID's `Display` text (lower-case, hyphenated). The contract names the
/// result and says no more about which texts parse.
#[verifier::external_body]
pub(crate) fn parse_uuid(text: &str) -> (r: Option<String>)
    ensures
        (match r {
            Some(c) => Some(c@),
            None => None::<Seq<char>>,
        }) == uuid_canonical_text(text@),
{
    match uuid::Uuid::parse_str(text) {
        Ok(u) => Some(u.to_string()),
        Err(_) => None,
    }
}

/// A fresh random identifier: `uuid::Uuid::new_v4()` rendered with
/// `Display`. The contract claims only that the text parses back to itself
/// and is 36 characters long (the hyphenated form); which UUID comes out is
/// left open.
#[verifier::external_body]
pub(crate) fn new_uuid_text() -> (r: String)
    ensures
        uuid_canonical_text(r@) == Some(r@),
        r@.len() == 36,
{
    uuid::Uuid::new_v4().to_string()
}

/// The current time from `chrono::Utc::now()`, in milliseconds since the
/// Unix epoch. Nothing is claimed of the value.
#[verifier::external_body]
pub(crate) fn now_millis() -> (r: i64) {
    chrono::Utc::now().timestamp_millis()
}

/// Whether `chrono::TimeDelta::from_std` accepts the duration: its source
/// accepts exactly the durations of at most `i64::MAX` milliseconds.
#[verifier::external_body]
pub(crate) fn fits_time_delta(limit: &TimeLimit) -> (r: bool)
    ensures
        r == (limit.spec_total_nanos() <= i64::MAX as int * 1_000_000),
{
    chrono::TimeDelta::from_std(std::time::Duration::new(limit.as_secs(), limit.subsec_nanos())).is_ok()
}

} // verus!
