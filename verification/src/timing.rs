//! Pacing: how long the clock loop waits after each cycle.

use vstd::prelude::*;

verus! {

/// The pause after each cycle, in whole milliseconds, at a rate of `rate`
/// instructions per second. A rate of zero has none.
pub open spec fn delay_of(rate: u32) -> Option<u32> {
    if rate == 0 {
        None
    } else {
        Some((1000int / rate as int) as u32)
    }
}

/// The pause after each cycle in milliseconds: `1000 / rate`, rounded down;
/// `None` for a rate of zero.
pub fn cycle_delay_ms(instructions_per_second: u32) -> (delay: Option<u32>)
    ensures
        delay == delay_of(instructions_per_second),
{
    if instructions_per_second == 0 {
        None
    } else {
        Some(1000 / instructions_per_second)
    }
}

} // verus!
