//! Trusted wrapper over chrono for the one place the gateway formats a
//! timestamp: the session-info endpoint's expiry field.

use vstd::prelude::*;

verus! {

/// The ISO-style text of an epoch second, or nothing when the instant is
/// out of chrono's range; a pure function of the second.
pub uninterp spec fn utc_datetime_text_of(secs: int) -> Option<Seq<char>>;

/// Relies on chrono's `DateTime::from_timestamp` (fails only out of range)
/// and `NaiveDateTime::format`: both pure functions of the epoch second.
#[verifier::external_body]
pub(crate) fn format_epoch(secs: i64) -> (r: Option<String>)
    ensures
        match r {
            Some(t) => utc_datetime_text_of(secs as int) == Some(t@),
            None => utc_datetime_text_of(secs as int) is None,
        },
{
    match chrono::DateTime::<chrono::Utc>::from_timestamp(secs, 0) {
        Some(dt) => Some(dt.naive_utc().format("%Y-%m-%dT%H:%M:%S").to_string()),
        None => None,
    }
}

} // verus!
