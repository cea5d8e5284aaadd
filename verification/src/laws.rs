//! The library's general guarantees, each stated over the observable model
//! and proved from the definition of one update step.

use vstd::prelude::*;
use crate::conditioner::{cond_step, CondModel};
use crate::scale::rescale_clamped;

verus! {

/// Range invariant: whatever the raw sample and the filter coefficients, the
/// value that one update step produces lies within the configured output
/// range.
pub proof fn lemma_output_in_range(m: CondModel, s: int, g: int, g0: int, tick: u64)
    requires
        m.out_min < m.out_max,
    ensures
        m.out_min <= cond_step(m, s, g, g0, tick).value <= m.out_max,
{
}

/// After any update step, the stored value is exactly the rescaled and
/// clamped image of the deadband filter's output value. This is the
/// consistency that `lemma_deadband_suppression` assumes of the state.
pub proof fn lemma_step_value_consistent(m: CondModel, s: int, g: int, g0: int, tick: u64)
    ensures
        ({
            let m2 = cond_step(m, s, g, g0, tick);
            m2.value == rescale_clamped(
                m2.bl.held,
                m2.in_min + m2.half,
                m2.in_max - m2.half,
                m2.out_min,
                m2.out_max,
            )
        }),
{
}

/// Deadband suppression: while the smoothed sample stays between the
/// deadband filter's borders, the filter holds its value, so an update step
/// from a consistent state leaves the output unchanged and reports a zero
/// delta.
pub proof fn lemma_deadband_suppression(m: CondModel, s: int, g: int, g0: int, tick: u64)
    requires
        m.bl.lower <= s <= m.bl.upper,
        m.value == rescale_clamped(
            m.bl.held,
            m.in_min + m.half,
            m.in_max - m.half,
            m.out_min,
            m.out_max,
        ),
    ensures
        cond_step(m, s, g, g0, tick).value == m.value,
        cond_step(m, s, g, g0, tick).delta == 0,
{
}

/// Edge-of-range override: an update step whose output changed and landed on
/// an edge of the output range counts as movement no matter how small the
/// reported velocity is.
pub proof fn lemma_edge_override(m: CondModel, s: int, g: int, g0: int, tick: u64)
    requires
        ({
            let m2 = cond_step(m, s, g, g0, tick);
            m2.delta != 0 && (m2.value == m.out_min || m2.value == m.out_max)
        }),
    ensures
        cond_step(m, s, g, g0, tick).moved,
{
}

/// Last-movement tracking: the recorded tick changes only to the tick of an
/// update step that counted as movement, and under ticks that keep
/// increasing it never decreases.
pub proof fn lemma_last_movement_monotonic(m: CondModel, s: int, g: int, g0: int, tick: u64)
    requires
        m.last_movement is Some ==> m.last_movement->0 <= tick,
    ensures
        ({
            let m2 = cond_step(m, s, g, g0, tick);
            &&& m2.last_movement != m.last_movement ==> m2.moved && m2.last_movement == Some(tick)
            &&& m.last_movement is Some ==> m2.last_movement is Some && m.last_movement->0
                <= m2.last_movement->0
        }),
{
}

/// Threshold reconfiguration: raising the movement threshold never turns a
/// non-movement into a movement; an update step that registers movement
/// under the raised threshold registered it under the lower one too, and the
/// produced value, delta and velocity do not depend on the threshold at all.
pub proof fn lemma_threshold_suppression(
    m: CondModel,
    hi: int,
    s: int,
    g: int,
    g0: int,
    tick: u64,
)
    requires
        m.threshold <= hi,
    ensures
        ({
            let m2 = cond_step(m, s, g, g0, tick);
            let mh = cond_step(CondModel { threshold: hi, ..m }, s, g, g0, tick);
            &&& mh.moved ==> m2.moved
            &&& mh.value == m2.value
            &&& mh.delta == m2.delta
            &&& mh.velocity == m2.velocity
        }),
{
}

} // verus!
