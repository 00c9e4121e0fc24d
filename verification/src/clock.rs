//! The clock.
use vstd::prelude::*;

verus! {

/// A time that the clock can show, in seconds since the Unix epoch: none before the epoch, and
/// none behind the last day of the year 262142, with which chrono's dates end.
pub open spec fn clock_time(seconds: i64) -> bool {
    0 <= seconds <= 8_210_266_876_799
}

/// `chrono::Utc::now` with `timestamp`: the current time in seconds since the Unix epoch. It
/// is claimed to lie in the range of chrono's dates and not before the epoch; which time it is,
/// is left open. The call does not return where the system's clock is set outside that range.
#[verifier::external_body]
pub(crate) fn utc_seconds() -> (seconds: i64)
    ensures
        clock_time(seconds),
{
    chrono::Utc::now().timestamp()
}

/// A decimal digit.
pub open spec fn is_digit(c: char) -> bool {
    '0' <= c <= '9'
}

/// Behind a year of at least four characters, the month, the day and the time of day, to the
/// second, and `Z`: `-01-26T18:30:09Z` for one.
pub open spec fn utc_stamp(text: Seq<char>) -> bool {
    let rest = text.skip(text.len() - 16);
    &&& text.len() >= 20
    &&& rest[0] == '-' && is_digit(rest[1]) && is_digit(rest[2])
    &&& rest[3] == '-' && is_digit(rest[4]) && is_digit(rest[5])
    &&& rest[6] == 'T' && is_digit(rest[7]) && is_digit(rest[8])
    &&& rest[9] == ':' && is_digit(rest[10]) && is_digit(rest[11])
    &&& rest[12] == ':' && is_digit(rest[13]) && is_digit(rest[14])
    &&& rest[15] == 'Z'
}

/// `chrono::Utc::now` with `to_rfc3339_opts`: the current time as RFC 3339 writes it, to the
/// second and with `Z` for UTC. That form is claimed; which time it is, is left open. The call
/// does not return where the system's clock is set outside the range of chrono's dates.
#[verifier::external_body]
pub(crate) fn utc_text() -> (text: String)
    ensures
        utc_stamp(text@),
{
    chrono::Utc::now().to_rfc3339_opts(chrono::SecondsFormat::Secs, true)
}

} // verus!
