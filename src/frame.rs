use vstd::prelude::*;

verus! {

/// The animation frame after `f`; the counter stops at its maximum.
pub open spec fn frame_after(f: u64) -> u64 {
    if f < u64::MAX { (f + 1) as u64 } else { f }
}

pub fn next_frame(f: u64) -> (r: u64)
    ensures
        r == frame_after(f),
{
    if f < u64::MAX { f + 1 } else { f }
}

} // verus!
