//! The broadcast gate: a pure predicate over "now" and the last broadcast
//! time that decides whether a daily broadcast is due.

use vstd::prelude::*;

verus! {

/// Seconds in one calendar day.
pub const SECONDS_PER_DAY: u64 = 86400;

/// Fixed local offset from UTC, in seconds (UTC+2).
pub const LOCAL_UTC_OFFSET: u64 = 7200;

/// First local hour (inclusive) of the broadcast window.
pub const BROADCAST_HOUR_FIRST: u64 = 19;

/// Last local hour (inclusive) of the broadcast window.
pub const BROADCAST_HOUR_LAST: u64 = 21;

/// The hour (0..24) of the given epoch timestamp in local time (UTC+2).
pub open spec fn spec_local_hour(now: int) -> int {
    ((now + LOCAL_UTC_OFFSET) / 3600) % 24
}

/// A broadcast is due iff more than one day has passed since the last one
/// and the local hour of "now" lies in the inclusive window [19, 21].
pub open spec fn spec_due_to_broadcast(now: int, last: int) -> bool {
    &&& now - last > SECONDS_PER_DAY
    &&& BROADCAST_HOUR_FIRST <= spec_local_hour(now) <= BROADCAST_HOUR_LAST
}

/// The broadcast gate. Pure: reads nothing but its arguments and decides
/// whether a broadcast is due at `now`, given the time `last` of the last
/// completed broadcast (0 = never).
pub fn due_to_broadcast(now: u64, last: u64) -> (due: bool)
    requires
        now + LOCAL_UTC_OFFSET <= u64::MAX,
    ensures
        due == spec_due_to_broadcast(now as int, last as int),
{
    let elapsed = now > last && now - last > SECONDS_PER_DAY;
    let hour = ((now + LOCAL_UTC_OFFSET) / 3600) % 24;
    elapsed && BROADCAST_HOUR_FIRST <= hour && hour <= BROADCAST_HOUR_LAST
}

} // verus!
