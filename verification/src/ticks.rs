//! Tick conversion for the tick-quantized remote protocol.
//!
//! Every timeout the library hands to a bounded wait is expressed in
//! milliseconds by callers and converted to whole server ticks, rounding
//! up, so that the wait never undershoots the requested duration.

use vstd::prelude::*;

verus! {

/// Fixed duration of one server tick, in milliseconds.
pub const MS_PER_TICK: u64 = 50;

/// Converts a millisecond timeout to whole server ticks, rounding up.
pub fn ms_to_ticks(ms: u64) -> (r: u64)
    requires
        ms + (MS_PER_TICK - 1) <= u64::MAX,
    ensures
        r == (ms + (MS_PER_TICK - 1)) / (MS_PER_TICK as int),
        r * (MS_PER_TICK as int) >= ms,
{
    let r = (ms + (MS_PER_TICK - 1)) / MS_PER_TICK;
    proof {
        assert(r * (MS_PER_TICK as int) >= ms) by (nonlinear_arith)
            requires
                r == (ms + (MS_PER_TICK - 1)) / (MS_PER_TICK as int),
                ms + (MS_PER_TICK - 1) <= u64::MAX,
                MS_PER_TICK == 50,
        ;
    }
    r
}

} // verus!
