//! The ramp of the amplification coefficient: pinned outside its window,
//! and moving one way inside it.
use vstd::prelude::*;

use crate::math::curve::effective_amp;

verus! {

/// The ramp is pinned outside its window: to `target_amp` once it has ended
/// or where the window is empty, else to `amp` until it begins.
pub proof fn lemma_ramp_pinned(amp: u64, target_amp: u64, ramp_start: i64, ramp_end: i64, now: i64)
    ensures
        now >= ramp_end || ramp_end == ramp_start ==> effective_amp(
            amp,
            target_amp,
            ramp_start,
            ramp_end,
            now,
        ) == target_amp,
        now <= ramp_start && now < ramp_end && ramp_start != ramp_end ==> effective_amp(
            amp,
            target_amp,
            ramp_start,
            ramp_end,
            now,
        ) == amp,
{
}

/// Along a ramp the amplification moves one way only, from `amp` towards
/// `target_amp`: at a later time it is no nearer to `amp` than at an earlier
/// one.
pub proof fn lemma_ramp_monotone(
    amp: u64,
    target_amp: u64,
    ramp_start: i64,
    ramp_end: i64,
    earlier: i64,
    later: i64,
)
    requires
        earlier <= later,
    ensures
        amp <= target_amp ==> amp <= effective_amp(amp, target_amp, ramp_start, ramp_end, earlier)
            <= effective_amp(amp, target_amp, ramp_start, ramp_end, later) <= target_amp,
        target_amp <= amp ==> amp >= effective_amp(amp, target_amp, ramp_start, ramp_end, earlier)
            >= effective_amp(amp, target_amp, ramp_start, ramp_end, later) >= target_amp,
{
    let diff = if target_amp > amp {
        target_amp - amp
    } else {
        amp - target_amp
    };
    let duration = ramp_end - ramp_start;
    if ramp_start < ramp_end {
        let e1 = if earlier <= ramp_start {
            0
        } else if earlier >= ramp_end {
            duration
        } else {
            earlier - ramp_start
        };
        let e2 = if later <= ramp_start {
            0
        } else if later >= ramp_end {
            duration
        } else {
            later - ramp_start
        };
        assert(0 <= (diff * e1) / duration <= (diff * e2) / duration <= diff && (diff * 0)
            / duration == 0 && (diff * duration) / duration == diff) by (nonlinear_arith)
            requires
                0 <= diff,
                0 <= e1 <= e2 <= duration,
                duration > 0,
        {
            assert(0 <= diff * e1 <= diff * e2 <= diff * duration);
        }
    }
}

} // verus!
