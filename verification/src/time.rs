//! Points in time, as texts and as seconds.

use vstd::prelude::*;

verus! {

/// The moment that a text names, as `chrono` reads it: the seconds since the start of 1970 and the
/// nanoseconds behind them, of which a leap second has more than a thousand million.
pub uninterp spec fn moment_of(s: Seq<char>) -> Option<(i64, u32)>;

/// How many whole seconds lie between two moments, as `chrono` counts them, from the second to the
/// first; `None` where one of them is out of its range.
pub uninterp spec fn seconds_between(
    then_secs: i64,
    then_nanos: u32,
    now_secs: i64,
    now_nanos: u32,
) -> Option<i64>;

/// The text in RFC 3339 form that `chrono` writes for a second since the start of 1970, in UTC;
/// `None` where the year is out of its range.
pub uninterp spec fn rfc3339(secs: i64) -> Option<Seq<char>>;

/// Whether a moment lies in the years 1970 to 9999 and in no leap second.
pub open spec fn ordinary(secs: i64, nanos: u32) -> bool {
    0 <= secs <= 253_402_300_799 && nanos < 1_000_000_000
}

/// The nanoseconds from the start of 1970 to a moment.
pub open spec fn nanos_since(secs: i64, nanos: u32) -> int {
    secs * 1_000_000_000 + nanos
}

/// The whole seconds in some nanoseconds, counted towards zero.
pub open spec fn whole_seconds(nanos: int) -> int {
    if nanos >= 0 {
        nanos / 1_000_000_000
    } else {
        -((-nanos) / 1_000_000_000)
    }
}

/// Parses the text as a `chrono::DateTime<Utc>` and takes `timestamp` and `timestamp_subsec_nanos`
/// of it. The result is a function of the text.
#[verifier::external_body]
pub(crate) fn moment(s: &str) -> (r: Option<(i64, u32)>)
    ensures
        r == moment_of(s@),
{
    let then = s.parse::<chrono::DateTime<chrono::Utc>>().ok()?;
    Some((then.timestamp(), then.timestamp_subsec_nanos()))
}

/// Makes two `chrono::DateTime<Utc>` with `from_timestamp`, subtracts the second from the first and
/// takes `num_seconds` of the difference. The result is a function of the arguments: for moments
/// of the years 1970 to 9999 and in no leap second, the whole seconds between them, counted
/// towards zero.
#[verifier::external_body]
pub(crate) fn difference(then_secs: i64, then_nanos: u32, now_secs: i64, now_nanos: u32) -> (r:
    Option<i64>)
    ensures
        r == seconds_between(then_secs, then_nanos, now_secs, now_nanos),
        ordinary(then_secs, then_nanos) && ordinary(now_secs, now_nanos) ==> r is Some && r->0
            == whole_seconds(nanos_since(then_secs, then_nanos) - nanos_since(now_secs, now_nanos)),
{
    let then = chrono::DateTime::from_timestamp(then_secs, then_nanos)?;
    let now = chrono::DateTime::from_timestamp(now_secs, now_nanos)?;
    Some((then - now).num_seconds())
}

/// Calls `chrono::DateTime::from_timestamp` and `to_rfc3339_opts`, with whole seconds and a `Z`
/// for the zone. The result is a function of the argument.
#[verifier::external_body]
pub(crate) fn rfc3339_text(secs: i64) -> (r: Option<String>)
    ensures
        rfc3339(secs) == match r {
            Some(t) => Some(t@),
            None => None,
        },
{
    let moment = chrono::DateTime::from_timestamp(secs, 0)?;
    Some(moment.to_rfc3339_opts(chrono::SecondsFormat::Secs, true))
}

/// The whole seconds from one moment to another: for ordinary moments those between them, and
/// otherwise what `chrono` counts.
pub open spec fn seconds_left(then: (i64, u32), now: (i64, u32)) -> Option<i64> {
    if ordinary(then.0, then.1) && ordinary(now.0, now.1) {
        Some(whole_seconds(nanos_since(then.0, then.1) - nanos_since(now.0, now.1)) as i64)
    } else {
        seconds_between(then.0, then.1, now.0, now.1)
    }
}

/// The whole seconds from the moment `now` to the moment `then`, each in seconds and nanoseconds
/// since the start of 1970; negative where `then` is the earlier one.
pub fn count_seconds(then: (i64, u32), now: (i64, u32)) -> (r: Option<i64>)
    ensures
        r == seconds_left(then, now),
{
    difference(then.0, then.1, now.0, now.1)
}

/// The whole seconds from a moment to the one that a text names; `None` where it names none.
pub open spec fn seconds_to(s: Seq<char>, now_secs: i64, now_nanos: u32) -> Option<i64> {
    match moment_of(s) {
        Some(then) => seconds_left(then, (now_secs, now_nanos)),
        None => None,
    }
}

/// The whole seconds from a moment to the one that a text names.
pub fn seconds_until(s: &str, now_secs: i64, now_nanos: u32) -> (r: Option<i64>)
    ensures
        r == seconds_to(s@, now_secs, now_nanos),
{
    match moment(s) {
        Some(then) => count_seconds(then, (now_secs, now_nanos)),
        None => None,
    }
}

/// More than 120 whole seconds lie between two ordinary moments exactly where they are at least
/// 121 seconds apart.
pub proof fn lemma_two_minutes(then: (i64, u32), now: (i64, u32))
    requires
        ordinary(then.0, then.1),
        ordinary(now.0, now.1),
    ensures
        seconds_left(then, now) is Some,
        seconds_left(then, now)->0 > 120 <==> nanos_since(then.0, then.1) - nanos_since(
            now.0,
            now.1,
        ) >= 121_000_000_000,
{
}

} // verus!
