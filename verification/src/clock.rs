//! Instants of time, and the clock.

use vstd::prelude::*;

verus! {

/// An instant in UTC: the whole seconds since the start of 1970 and the
/// nanoseconds since the last whole second.
#[derive(Clone, Copy, Debug, PartialEq, Eq, Structural)]
pub struct Timestamp {
    pub secs: i64,
    pub nanos: u32,
}

/// How much of a second the text of an instant shows.
#[derive(Clone, Copy, Debug, PartialEq, Eq, Structural)]
pub enum Precision {
    /// Whole seconds.
    Seconds,
    /// The fewest of zero, three, six or nine decimals that lose nothing.
    Shortest,
}

/// Whether a character is one of those that an RFC 3339 text in UTC is made
/// of: a decimal digit, `-`, `+`, `:`, `.`, `T` or `Z`.
pub open spec fn is_stamp_char(c: char) -> bool {
    ('0' <= c && c <= '9') || c == '-' || c == '+' || c == ':' || c == '.' || c == 'T' || c == 'Z'
}

/// Whether a text holds no other characters than those of an RFC 3339 text in
/// UTC.
pub open spec fn is_stamp(s: Seq<char>) -> bool {
    forall|i: int| 0 <= i < s.len() ==> is_stamp_char(#[trigger] s[i])
}

/// The text of an instant as `chrono` writes it in RFC 3339 with `Z` for the
/// zone, such as `2025-01-15T14:30:00Z`; `None` for an instant that `chrono`
/// cannot hold.
pub uninterp spec fn rfc3339_text(secs: int, nanos: int, precision: Precision) -> Option<Seq<char>>;

/// The text of an instant at a precision.
pub open spec fn text_at(t: Timestamp, precision: Precision) -> Option<Seq<char>> {
    rfc3339_text(t.secs as int, t.nanos as int, precision)
}

/// Whether an instant has a text at a precision, made of the characters of
/// such a text.
pub open spec fn has_text(t: Timestamp, precision: Precision) -> bool {
    text_at(t, precision) matches Some(text) && is_stamp(text)
}

/// The current instant, from `chrono::Utc::now()`, by its `timestamp()` and
/// `timestamp_subsec_nanos()`. `chrono` makes the value through
/// `DateTime::from_timestamp` and gives back, by these two, what that function
/// took: so the instant is one that `chrono` holds, and it has a text at
/// either precision, written as every such text is. Nothing is claimed of
/// which instant it is.
#[verifier::external_body]
pub(crate) fn utc_now() -> (now: Timestamp)
    ensures
        has_text(now, Precision::Seconds),
        has_text(now, Precision::Shortest),
{
    let now = chrono::Utc::now();
    Timestamp { secs: now.timestamp(), nanos: now.timestamp_subsec_nanos() }
}

/// The text of an instant, from `DateTime::to_rfc3339_opts` with `Z` for the
/// zone and with `SecondsFormat::Secs` or `SecondsFormat::AutoSi` for the two
/// precisions. The instant is handed to `chrono` through
/// `DateTime::from_timestamp`, which has no value for seconds out of its range
/// or nanoseconds that no second holds: there is no text then. The text is
/// written digit by digit, with `-`, `:`, `T` and `.` between the numbers,
/// `Z` at the end, and a sign before a year of more than four digits.
#[verifier::external_body]
pub(crate) fn format_rfc3339(t: Timestamp, precision: Precision) -> (r: Option<String>)
    ensures
        match rfc3339_text(t.secs as int, t.nanos as int, precision) {
            Some(text) => r is Some && r->Some_0@ == text && is_stamp(text),
            None => r is None,
        },
{
    let form = match precision {
        Precision::Seconds => chrono::SecondsFormat::Secs,
        Precision::Shortest => chrono::SecondsFormat::AutoSi,
    };
    match chrono::DateTime::from_timestamp(t.secs, t.nanos) {
        Some(instant) => Some(instant.to_rfc3339_opts(form, true)),
        None => None,
    }
}

} // verus!
