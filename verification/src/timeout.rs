//! Timeouts in the units of the native facilities.
//!
//! A parking step gives the time left in nanoseconds. Both facilities
//! round it up to their own unit, so that no wait ends before its
//! deadline because of the rounding.

use vstd::prelude::*;

verus! {

/// Nanoseconds in a millisecond, the unit of a wait on an address.
pub const NANOS_PER_MILLI: u64 = 1_000_000;

/// Nanoseconds in a tick, the unit of a keyed-event wait.
pub const NANOS_PER_TICK: u64 = 100;

/// The millisecond count by which a wait on an address means "no timeout".
pub const INFINITE: u32 = 0xFFFF_FFFF;

/// The least number of whole units that cover `nanos`.
pub open spec fn units_covering(nanos: int, unit: int) -> int {
    (nanos + unit - 1) / unit
}

/// The timeout of a wait on an address, in milliseconds, for `nanos`
/// nanoseconds left: rounded up, and held below `INFINITE`, so that a
/// wait with a deadline never turns into one without. A wait that is cut
/// short this way ends before its deadline; the waiter then looks at its
/// word and the clock, and waits for the rest.
pub fn wait_address_millis(nanos: u64) -> (millis: u32)
    ensures
        millis < INFINITE,
        millis == if units_covering(nanos as int, NANOS_PER_MILLI as int) < INFINITE {
            units_covering(nanos as int, NANOS_PER_MILLI as int)
        } else {
            INFINITE - 1
        },
        millis < INFINITE - 1 ==> millis * NANOS_PER_MILLI >= nanos,
{
    let whole: u64 = nanos / NANOS_PER_MILLI;
    let millis: u64 = if nanos % NANOS_PER_MILLI > 0 {
        whole + 1
    } else {
        whole
    };
    if millis >= INFINITE as u64 {
        INFINITE - 1
    } else {
        millis as u32
    }
}

/// The interval of a keyed-event wait for `nanos` nanoseconds left: the
/// number of ticks, rounded up, with a minus sign, which is how the
/// facility tells a relative interval from an absolute time.
pub fn keyed_event_interval(nanos: u64) -> (interval: i64)
    ensures
        interval == -units_covering(nanos as int, NANOS_PER_TICK as int),
        -interval * NANOS_PER_TICK >= nanos,
{
    let whole: u64 = nanos / NANOS_PER_TICK;
    let ticks: u64 = if nanos % NANOS_PER_TICK > 0 {
        whole + 1
    } else {
        whole
    };
    -(ticks as i64)
}

} // verus!
