use vstd::prelude::*;
use chrono::{Local, NaiveDateTime};

verus! {

/// The format in which the application writes and reads local timestamps.
pub const LOCAL_TIME_FORMAT: &'static str = "%Y-%m-%d %H:%M:%S";

#[verifier::external_type_specification]
#[verifier::external_body]
pub struct ExNaiveDateTime(NaiveDateTime);

/// Whether chrono's `NaiveDateTime::parse_from_str` accepts `value` in
/// `LOCAL_TIME_FORMAT`; the parse depends on the text alone.
pub uninterp spec fn naive_time_parses(value: Seq<char>) -> bool;

/// Calls `chrono::NaiveDateTime::parse_from_str(value, LOCAL_TIME_FORMAT)`.
/// Trusted: the call succeeds exactly when `naive_time_parses(value@)`;
/// nothing is claimed about the parsed date and time.
#[verifier::external_body]
fn parse_naive_local_time(value: &str) -> (r: Option<NaiveDateTime>)
    ensures
        r is Some <==> naive_time_parses(value@),
{
    NaiveDateTime::parse_from_str(value, LOCAL_TIME_FORMAT).ok()
}

/// Reads the clock: the whole seconds that have passed from the local time
/// `then` (its earliest reading in the machine's time zone, through
/// `NaiveDateTime::and_local_timezone(Local)` and `earliest`) to `Local::now()`,
/// as `signed_duration_since(..).num_seconds()` gives them. `None` where the
/// local time does not exist in the time zone. The result rests on the clock and
/// the time zone, so nothing is claimed about it.
#[verifier::external_body]
fn seconds_since_local(then: &NaiveDateTime) -> (r: Option<i64>) {
    match then.and_local_timezone(Local).earliest() {
        Some(t) => Some(Local::now().signed_duration_since(t).num_seconds()),
        None => None,
    }
}

/// Whether a signed distance in whole seconds is less than one hour either way.
pub fn is_within_one_hour(elapsed_seconds: i64) -> (r: bool)
    ensures
        r == (-3600 < elapsed_seconds < 3600),
{
    -3600 < elapsed_seconds && elapsed_seconds < 3600
}

/// Whether the recorded local time `last_success_at` lies less than one hour
/// from now, in either direction. Text that is not a timestamp is never recent.
pub fn last_success_is_within_one_hour(last_success_at: &str) -> (r: bool)
    ensures
        r ==> naive_time_parses(last_success_at@),
{
    match parse_naive_local_time(last_success_at) {
        None => false,
        Some(then) => match seconds_since_local(&then) {
            None => false,
            Some(elapsed) => is_within_one_hour(elapsed),
        },
    }
}

} // verus!
