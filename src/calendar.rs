//! Instants, the UTC offset of a named time zone, and local calendar days.
use chrono::{Offset, TimeZone};
use vstd::prelude::*;

verus! {

/// Largest distance from the Unix epoch, in seconds, that an `Instant` may
/// have: close to a quarter of a million years, inside what chrono represents.
pub const MAX_UNIX_SECONDS: i64 = 8_000_000_000_000;

/// Seconds in a calendar day.
pub const SECONDS_PER_DAY: i64 = 86_400;

/// An absolute point in time: whole seconds since 1970-01-01T00:00:00Z.
#[derive(Clone, Copy, Debug, PartialEq, Eq, Structural)]
pub struct Instant {
    pub unix_seconds: i64,
}

impl Instant {
    /// Whether the instant lies within `MAX_UNIX_SECONDS` of the epoch.
    pub open spec fn in_range(self) -> bool {
        -MAX_UNIX_SECONDS <= self.unix_seconds <= MAX_UNIX_SECONDS
    }

    /// The instant `unix_seconds` after the epoch, if it is in range.
    pub fn from_unix_seconds(unix_seconds: i64) -> (r: Option<Instant>)
        ensures
            r is Some <==> -MAX_UNIX_SECONDS <= unix_seconds <= MAX_UNIX_SECONDS,
            r matches Some(i) ==> i.unix_seconds == unix_seconds && i.in_range(),
    {
        if -MAX_UNIX_SECONDS <= unix_seconds && unix_seconds <= MAX_UNIX_SECONDS {
            Some(Instant { unix_seconds })
        } else {
            None
        }
    }
}

/// Whether chrono-tz knows a zone by the name `zone`.
pub uninterp spec fn zone_known(zone: Seq<char>) -> bool;

/// Seconds to add to UTC to get the wall-clock time of zone `zone` at
/// `unix_seconds` after the epoch, as the zone database has it.
pub uninterp spec fn zone_offset(zone: Seq<char>, unix_seconds: int) -> int;

/// Relies on chrono-tz's `FromStr` for `Tz`, which looks an IANA name up in
/// its table and fails on any other string, and on
/// `TimeZone::offset_from_utc_datetime` for `Tz` followed by `Offset::fix` and
/// `FixedOffset::local_minus_utc`, which give the offset in force at that
/// instant; a `FixedOffset` is always strictly within one day of UTC.
#[verifier::external_body]
fn zone_offset_seconds(zone: &str, unix_seconds: i64) -> (r: Option<i32>)
    requires
        -MAX_UNIX_SECONDS <= unix_seconds <= MAX_UNIX_SECONDS,
    ensures
        r is Some <==> zone_known(zone@),
        r matches Some(o) ==> o == zone_offset(zone@, unix_seconds as int),
        r matches Some(o) ==> -SECONDS_PER_DAY < o < SECONDS_PER_DAY,
{
    let tz = zone.parse::<chrono_tz::Tz>().ok()?;
    let at = chrono::DateTime::from_timestamp(unix_seconds, 0)?;
    Some(tz.offset_from_utc_datetime(&at.naive_utc()).fix().local_minus_utc())
}

/// Name of the zone used in place of one that the zone database does not know.
pub open spec fn fallback_zone() -> Seq<char> {
    "America/Lima"@
}

/// Offset applied to a record kept in zone `zone` at `unix_seconds`: the
/// zone's own where it is known, else the fallback zone's, else none.
pub open spec fn effective_offset(zone: Seq<char>, unix_seconds: int) -> int {
    if zone_known(zone) {
        zone_offset(zone, unix_seconds)
    } else if zone_known(fallback_zone()) {
        zone_offset(fallback_zone(), unix_seconds)
    } else {
        0
    }
}

/// Number of the local calendar day, counted from 1970-01-01, on which the
/// instant `unix_seconds` falls where clocks run `offset` seconds ahead of UTC.
pub open spec fn local_day(unix_seconds: int, offset: int) -> int {
    (unix_seconds + offset) / (SECONDS_PER_DAY as int)
}

/// Whether `now` falls on a later local day than `last`, each read at its own
/// offset; with no earlier activity every day is a new one.
pub open spec fn later_day(last: Option<(int, int)>, now: int, now_offset: int) -> bool {
    match last {
        None => true,
        Some((t, o)) => local_day(now, now_offset) > local_day(t, o),
    }
}

/// Whether `now` starts a new local day after `last` for a record kept in zone
/// `zone`.
pub open spec fn new_local_day(last: Option<Instant>, now: Instant, zone: Seq<char>) -> bool {
    match last {
        None => true,
        Some(l) => local_day(now.unix_seconds as int, effective_offset(zone, now.unix_seconds as int))
            > local_day(l.unix_seconds as int, effective_offset(zone, l.unix_seconds as int)),
    }
}

/// The local day number of `unix_seconds` at `offset`.
pub fn local_day_number(unix_seconds: i64, offset: i32) -> (r: i64)
    requires
        -MAX_UNIX_SECONDS <= unix_seconds <= MAX_UNIX_SECONDS,
        -SECONDS_PER_DAY < offset < SECONDS_PER_DAY,
    ensures
        r == local_day(unix_seconds as int, offset as int),
{
    let shifted: i64 = unix_seconds + offset as i64;
    match shifted.checked_div_euclid(SECONDS_PER_DAY) {
        Some(d) => d,
        None => 0,
    }
}

/// Whether `now`, read at `now_offset`, falls on a later local day than
/// `last`, read at the offset paired with it. With no earlier activity the
/// answer is `true`.
pub fn is_later_local_day(last: Option<(i64, i32)>, now: i64, now_offset: i32) -> (r: bool)
    requires
        -MAX_UNIX_SECONDS <= now <= MAX_UNIX_SECONDS,
        -SECONDS_PER_DAY < now_offset < SECONDS_PER_DAY,
        last matches Some((t, o)) ==> -MAX_UNIX_SECONDS <= t <= MAX_UNIX_SECONDS
            && -SECONDS_PER_DAY < o < SECONDS_PER_DAY,
    ensures
        r == later_day(
            match last {
                None => None,
                Some((t, o)) => Some((t as int, o as int)),
            },
            now as int,
            now_offset as int,
        ),
{
    match last {
        None => true,
        Some((t, o)) => local_day_number(now, now_offset) > local_day_number(t, o),
    }
}

/// The offset used for a record kept in zone `zone` at `at`: the zone's own
/// where the zone database knows the name, else that of America/Lima.
pub fn offset_for_zone(zone: &str, at: Instant) -> (r: i32)
    requires
        at.in_range(),
    ensures
        r == effective_offset(zone@, at.unix_seconds as int),
        -SECONDS_PER_DAY < r < SECONDS_PER_DAY,
{
    match zone_offset_seconds(zone, at.unix_seconds) {
        Some(o) => o,
        None => match zone_offset_seconds("America/Lima", at.unix_seconds) {
            Some(o) => o,
            None => 0,
        },
    }
}

} // verus!
