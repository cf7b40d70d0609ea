//! RFC 3339 timestamps of BattleMetrics sessions, as instants in
//! nanoseconds since the Unix epoch.

use vstd::prelude::*;
use chrono::DateTime;

verus! {

/// The instant that `chrono` parses from an RFC 3339 text: whole seconds
/// since the Unix epoch and the nanoseconds past them.
pub uninterp spec fn rfc3339_instant(text: Seq<char>) -> Option<(i64, u32)>;

/// The largest number of seconds from the Unix epoch that a `chrono`
/// date-time can lie (its years run from -262144 to 262143).
pub open spec fn max_chrono_seconds() -> int {
    8_400_000_000_000
}

/// `chrono::DateTime::parse_from_rfc3339`, read as whole seconds since the
/// epoch (`DateTime::timestamp`) and the nanoseconds past them
/// (`DateTime::timestamp_subsec_nanos`). The result is named, not
/// described: it is whatever the parser makes of the text. Also stated:
/// the seconds lie within the range of a `chrono` date-time, and the
/// nanoseconds stay below two seconds' worth (a leap second counts past
/// one).
#[verifier::external_body]
fn parse_rfc3339(text: &str) -> (r: Option<(i64, u32)>)
    ensures
        r == rfc3339_instant(text@),
        r matches Some((secs, nanos)) ==> -max_chrono_seconds() <= secs <= max_chrono_seconds()
            && nanos < 2_000_000_000,
{
    match DateTime::parse_from_rfc3339(text) {
        Ok(t) => Some((t.timestamp(), t.timestamp_subsec_nanos())),
        Err(_) => None,
    }
}

/// An instant given as seconds and nanoseconds, in nanoseconds.
pub open spec fn instant_nanos(secs: int, nanos: int) -> int {
    secs * 1_000_000_000 + nanos
}

/// The instant of a BattleMetrics timestamp, in nanoseconds since the
/// Unix epoch, or none where it is not RFC 3339.
pub open spec fn timestamp_spec(text: Seq<char>) -> Option<int> {
    match rfc3339_instant(text) {
        Some((secs, nanos)) => Some(instant_nanos(secs as int, nanos as int)),
        None => None,
    }
}

/// Parses a BattleMetrics timestamp into nanoseconds since the Unix epoch.
pub fn parse_battlemetrics_timestamp(value: &str) -> (r: Option<i128>)
    ensures
        r matches Some(t) ==> timestamp_spec(value@) == Some(t as int),
        r is None ==> timestamp_spec(value@) is None,
        r matches Some(t) ==> -max_chrono_seconds() * 1_000_000_000 <= t <= max_chrono_seconds()
            * 1_000_000_000 + 2_000_000_000,
{
    match parse_rfc3339(value) {
        Some((secs, nanos)) => Some(secs as i128 * 1_000_000_000 + nanos as i128),
        None => None,
    }
}

} // verus!
