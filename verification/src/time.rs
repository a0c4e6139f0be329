//! Instants: reading them from text and writing them as text.
use vstd::prelude::*;

use crate::models::Timestamp;
use std::fmt::Write;

verus! {

/// Whether chrono can represent the instant `secs` seconds and `nanos`
/// nanoseconds after the Unix epoch (`DateTime::<Utc>::from_timestamp`
/// gives `Some`): the day must lie in chrono's supported range of dates,
/// and `nanos` must be below one second (or two, in a leap second).
pub uninterp spec fn utc_representable(secs: i64, nanos: u32) -> bool;

/// What `DateTime::parse_from_rfc3339` makes of a text, as a UTC instant:
/// seconds and nanoseconds since the epoch; none when the text is not an
/// RFC 3339 date-time.
pub uninterp spec fn rfc3339_instant(text: Seq<char>) -> Option<(i64, u32)>;

/// The text that chrono's `format` writes for an instant with the given
/// pattern; none when the instant cannot be represented or the pattern
/// cannot be written.
pub uninterp spec fn utc_text(secs: i64, nanos: u32, pattern: Seq<char>) -> Option<Seq<char>>;

/// What `str::parse::<i64>` makes of a text.
pub uninterp spec fn parsed_i64(text: Seq<char>) -> Option<i64>;

/// Calls `chrono::DateTime::<Utc>::from_timestamp(secs, 0)`: the instant
/// `secs` seconds after the epoch, when chrono can represent it.
#[verifier::external_body]
pub(crate) fn utc_from_secs(secs: i64) -> (r: Option<Timestamp>)
    ensures
        r is Some <==> utc_representable(secs, 0),
        r matches Some(t) ==> t.secs == secs && t.nanos == 0,
{
    chrono::DateTime::from_timestamp(secs, 0).map(
        |dt| Timestamp { secs: dt.timestamp(), nanos: dt.timestamp_subsec_nanos() },
    )
}

/// Calls `chrono::DateTime::parse_from_rfc3339` and converts the result to
/// UTC seconds and nanoseconds.
#[verifier::external_body]
pub(crate) fn parse_rfc3339(text: &str) -> (r: Option<Timestamp>)
    ensures
        match r {
            Some(t) => rfc3339_instant(text@) == Some((t.secs, t.nanos)),
            None => rfc3339_instant(text@) is None,
        },
{
    match chrono::DateTime::parse_from_rfc3339(text) {
        Ok(dt) => {
            let utc = dt.with_timezone(&chrono::Utc);
            Some(Timestamp { secs: utc.timestamp(), nanos: utc.timestamp_subsec_nanos() })
        },
        Err(_) => None,
    }
}

/// A pattern made only of chrono format items that always write: the date
/// as `%Y%m%d`, or date and time as `%Y-%m-%dT%H:%M:%SZ`.
pub open spec fn well_formed_pattern(pattern: Seq<char>) -> bool {
    pattern == "%Y%m%d"@ || pattern == "%Y-%m-%dT%H:%M:%SZ"@
}

/// Calls `chrono::DateTime::<Utc>::from_timestamp` and writes the instant
/// with chrono's `format` and the given pattern.  Writing fails only on an
/// invalid format item, so an instant chrono can represent is always written
/// with a well-formed pattern.
#[verifier::external_body]
pub(crate) fn format_utc(t: Timestamp, pattern: &str) -> (r: Option<String>)
    ensures
        match r {
            Some(s) => utc_text(t.secs, t.nanos, pattern@) == Some(s@),
            None => utc_text(t.secs, t.nanos, pattern@) is None,
        },
        utc_representable(t.secs, t.nanos) && well_formed_pattern(pattern@) ==> r is Some,
{
    let dt = chrono::DateTime::from_timestamp(t.secs, t.nanos)?;
    let mut out = String::new();
    match write!(out, "{}", dt.format(pattern)) {
        Ok(()) => Some(out),
        Err(_) => None,
    }
}

/// Calls `chrono::Utc::now()`: the current instant as seconds and
/// nanoseconds since the epoch.  It depends on the clock, so only what holds
/// of every reading is stated: chrono builds it with `from_timestamp`, so
/// it is an instant chrono can represent.
#[verifier::external_body]
pub(crate) fn utc_now() -> (r: Timestamp)
    ensures
        utc_representable(r.secs, r.nanos),
{
    let now = chrono::Utc::now();
    Timestamp { secs: now.timestamp(), nanos: now.timestamp_subsec_nanos() }
}

/// Calls `str::parse::<i64>`.
#[verifier::external_body]
pub(crate) fn parse_i64(text: &str) -> (r: Option<i64>)
    ensures
        r == parsed_i64(text@),
{
    text.parse::<i64>().ok()
}

/// Seconds in `ms` milliseconds, rounded toward zero.
pub open spec fn ms_to_secs(ms: int) -> int {
    if ms >= 0 {
        ms / 1000
    } else {
        -((-ms) / 1000)
    }
}

/// Seconds in `ms` milliseconds, rounded toward zero (`ms / 1000`).
pub fn millis_to_secs(ms: i64) -> (s: i64)
    ensures
        s == ms_to_secs(ms as int),
{
    if ms >= 0 {
        ms / 1000
    } else {
        let m: i128 = -(ms as i128);
        let q: i128 = m / 1000;
        (-q) as i64
    }
}

} // verus!
