//! The day of the week of the cluster clock's timestamp.

use vstd::prelude::*;

verus! {

/// A day of the week.
#[derive(Debug, Clone, Copy, PartialEq, Eq, Structural)]
pub enum Weekday {
    Mon,
    Tue,
    Wed,
    Thu,
    Fri,
    Sat,
    Sun,
}

/// The days since Monday of the day holding the Unix timestamp `t`
/// (1 January 1970 was a Thursday).
pub open spec fn days_from_monday(t: i64) -> int {
    (t as int / 86400 + 3) % 7
}

/// The largest distance from the epoch, in seconds, at which every
/// timestamp is accepted (a little over 250,000 years).
pub open spec fn in_calendar_range(t: i64) -> bool {
    -8_000_000_000_000 <= t <= 8_000_000_000_000
}

/// `chrono::DateTime::from_timestamp(t, 0)` and `Datelike::weekday`, the
/// weekday given as its days from Monday. chrono documents `None` for
/// timestamps outside its calendar, which spans more than 250,000 years
/// either side of the epoch; the contract claims `Some` inside
/// `in_calendar_range` and, whenever there is a day, the calendar's day of
/// the week. Where exactly chrono's range ends is not stated.
#[verifier::external_body]
fn weekday_from_timestamp(t: i64) -> (r: Option<u8>)
    ensures
        in_calendar_range(t) ==> r is Some,
        r is Some ==> r->Some_0 == days_from_monday(t),
{
    match chrono::DateTime::from_timestamp(t, 0) {
        Some(d) => Some(chrono::Datelike::weekday(&d).num_days_from_monday() as u8),
        None => None,
    }
}

/// The weekday `n` days after Monday.
pub open spec fn weekday_of(n: int) -> Weekday {
    if n == 0 { Weekday::Mon }
    else if n == 1 { Weekday::Tue }
    else if n == 2 { Weekday::Wed }
    else if n == 3 { Weekday::Thu }
    else if n == 4 { Weekday::Fri }
    else if n == 5 { Weekday::Sat }
    else { Weekday::Sun }
}

/// The day of the week of the timestamp, or `None` where the calendar has
/// no day for it (there the instruction's unwrap does not return).
pub fn get_day_of_the_week(unix_timestamp: i64) -> (r: Option<Weekday>)
    ensures
        in_calendar_range(unix_timestamp) ==> r is Some,
        r is Some ==> r == Some(weekday_of(days_from_monday(unix_timestamp))),
{
    match weekday_from_timestamp(unix_timestamp) {
        Some(n) => {
            let d = if n == 0 { Weekday::Mon }
                else if n == 1 { Weekday::Tue }
                else if n == 2 { Weekday::Wed }
                else if n == 3 { Weekday::Thu }
                else if n == 4 { Weekday::Fri }
                else if n == 5 { Weekday::Sat }
                else { Weekday::Sun };
            Some(d)
        },
        None => None,
    }
}

} // verus!
