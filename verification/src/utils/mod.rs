//! Small helpers shared by the monitors.

use crate::text::is_digit;
use chrono::TimeZone;
use vstd::prelude::*;
use vstd::string::*;

verus! {

/// The pattern of a rendered time: date and time of day, to the second.
pub open spec fn time_pattern() -> Seq<char> {
    "%Y-%m-%d %H:%M:%S"@
}

/// The last second of the year 9999, counted from the start of 1970.
pub const LAST_SECOND: i64 = 253_402_300_799;

/// One day before the last second of the year 9999: up to here the local time
/// lies within the years of four digits in every time zone.
pub const LAST_PLAIN_SECOND: i64 = 253_402_214_399;

/// The shape of a rendered time: `dddd-dd-dd dd:dd:dd`.
pub open spec fn time_shaped(t: Seq<char>) -> bool {
    &&& t.len() == 19
    &&& t[4] == '-'
    &&& t[7] == '-'
    &&& t[10] == ' '
    &&& t[13] == ':'
    &&& t[16] == ':'
    &&& forall|i: int|
        0 <= i < 19 && i != 4 && i != 7 && i != 10 && i != 13 && i != 16 ==> is_digit(
            #[trigger] t[i],
        )
}

/// What holds of the local time of a timestamp in milliseconds, whatever the
/// time zone: there is none beyond the range of signed numbers, there is one
/// up to the end of the year 9999, and up to a day before that it has the
/// shape of a rendered time.
pub open spec fn local_time_for(timestamp_ms: u64, local: Option<Seq<char>>) -> bool {
    &&& timestamp_ms > i64::MAX ==> local is None
    &&& timestamp_ms / 1000 <= LAST_SECOND ==> local is Some
    &&& timestamp_ms / 1000 <= LAST_PLAIN_SECOND ==> local is Some && time_shaped(local->0)
}

/// `chrono::Local.timestamp_opt(secs, 0)`, rendered by `DateTime::format`
/// with `pattern`; nothing where chrono has no such instant. chrono has one
/// for every second within its range of dates, which reaches far beyond the
/// year 9999, so that there is a text for every second up to `LAST_SECOND`.
/// The pattern writes a year from 0 to 9999 with four digits and month, day,
/// hour, minute and second with two digits each; a local time is less than a
/// day away from the time it is local to, so that the text has the shape of
/// a rendered time for every second up to `LAST_PLAIN_SECOND`. The digits
/// depend on the time zone of the machine, so nothing is stated of them.
#[verifier::external_body]
pub(crate) fn local_time_text(secs: i64, pattern: &str) -> (r: Option<String>)
    requires
        0 <= secs,
        pattern@ == time_pattern(),
    ensures
        secs <= LAST_SECOND ==> r is Some,
        secs <= LAST_PLAIN_SECOND ==> r is Some && time_shaped(r->0@),
{
    match chrono::Local.timestamp_opt(secs, 0) {
        chrono::LocalResult::Single(dt) => Some(dt.format(pattern).to_string()),
        _ => None,
    }
}

/// The local time of a timestamp in milliseconds, where the machine has one
/// for it. It has one for every timestamp up to the end of the year 9999, and
/// none for a timestamp beyond the range of signed numbers; in between, the
/// range of dates that chrono knows decides.
pub fn local_time_of(timestamp_ms: u64) -> (r: Option<String>)
    ensures
        local_time_for(timestamp_ms, crate::text::opt_text(r)),
{
    if timestamp_ms > 9223372036854775807u64 {
        None
    } else {
        local_time_text((timestamp_ms / 1000) as i64, "%Y-%m-%d %H:%M:%S")
    }
}

/// The text shown for a timestamp: its local time, or a fixed text where it has none.
pub open spec fn timestamp_text(local: Option<Seq<char>>) -> Seq<char> {
    match local {
        Some(t) => t,
        None => "Time format error"@,
    }
}

/// The text shown for a timestamp, given its local time.
pub fn render_timestamp(local: Option<String>) -> (r: String)
    ensures
        r@ == timestamp_text(crate::text::opt_text(local)),
{
    match local {
        Some(t) => t,
        None => String::from_str("Time format error"),
    }
}

/// Format timestamp to readable string: its local time, which the machine
/// decides, or a fixed text where the machine has no time for it.
pub fn format_timestamp(timestamp_ms: u64) -> (r: String)
    ensures
        exists|local: Option<Seq<char>>|
            local_time_for(timestamp_ms, local) && r@ == timestamp_text(local),
        timestamp_ms / 1000 <= LAST_PLAIN_SECOND ==> time_shaped(r@),
        timestamp_ms > i64::MAX ==> r@ == timestamp_text(None),
{
    let local = local_time_of(timestamp_ms);
    let ghost witness = crate::text::opt_text(local);
    let r = render_timestamp(local);
    assert(local_time_for(timestamp_ms, witness) && r@ == timestamp_text(witness));
    r
}

} // verus!
