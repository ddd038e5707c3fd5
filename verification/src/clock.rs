//! The clock: the only place that reads the time, and the writing of a
//! moment as text.
use vstd::prelude::*;

verus! {

/// The moment `seconds` seconds after the start of 1970, as a UTC text of
/// year, month, day, hours, minutes and seconds; nothing where the calendar
/// cannot hold the moment.
pub uninterp spec fn utc_text(seconds: int) -> Option<Seq<char>>;

/// Calls `Utc::now` and `DateTime::to_rfc3339` of the `chrono` crate: the
/// present moment as an RFC 3339 text. What it returns depends on when it
/// is called, so nothing is claimed of it.
#[verifier::external_body]
pub(crate) fn utc_timestamp() -> (stamp: String) {
    chrono::Utc::now().to_rfc3339()
}

/// Calls `Local::now` and `DateTime::format` of the `chrono` crate: the
/// present time of day in the machine's time zone, as hours, minutes and
/// seconds. What it returns depends on when and where it is called, so
/// nothing is claimed of it.
#[verifier::external_body]
pub(crate) fn local_clock() -> (stamp: String) {
    chrono::Local::now().format("%H:%M:%S").to_string()
}

/// Calls `Utc::now` and `DateTime::timestamp` of the `chrono` crate: the
/// whole seconds from the start of 1970 to the present moment. What it
/// returns depends on when it is called, so nothing is claimed of it.
#[verifier::external_body]
pub(crate) fn utc_seconds() -> (now: i64) {
    chrono::Utc::now().timestamp()
}

/// Calls `DateTime::from_timestamp` and `DateTime::format` of the `chrono`
/// crate. The first yields the moment for a number of seconds, or nothing
/// where the number is out of the calendar's range; the second writes it
/// with the fixed pattern of year, month, day, `T`, hours, minutes, seconds
/// and `Z`. The text is a function of the seconds alone.
#[verifier::external_body]
pub(crate) fn format_utc(seconds: i64) -> (text: Option<String>)
    ensures
        match text {
            Some(t) => utc_text(seconds as int) == Some(t@),
            None => utc_text(seconds as int) is None,
        },
{
    match chrono::DateTime::from_timestamp(seconds, 0) {
        Some(moment) => Some(moment.format("%Y-%m-%dT%H:%M:%SZ").to_string()),
        None => None,
    }
}

} // verus!
