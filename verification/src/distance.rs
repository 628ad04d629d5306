//! Converting a measured echo pulse into a distance, and a distance into
//! an output intensity: the consumer side of the sampler, recomputed every
//! sensing cycle with no persisted state.

use vstd::prelude::*;
use crate::sampler::PulseMeasurement;

verus! {

/// Speed of sound in centimetres per second.
pub const SPEED_OF_SOUND_CM_PER_S: u32 = 34_300;

/// One-way distance in whole centimetres for an echo pulse of
/// `elapsed_ticks` ticks of a clock running at `tick_hz`: the pulse spans
/// the round trip, so the distance is half the travelled length.
pub open spec fn spec_distance_cm(elapsed_ticks: int, tick_hz: int) -> int {
    elapsed_ticks * SPEED_OF_SOUND_CM_PER_S / (2 * tick_hz)
}

/// Computes the sensed distance in centimetres from the width of the echo
/// pulse.
pub fn distance_cm_from_ticks(elapsed_ticks: u64, tick_hz: u32) -> (r: u64)
    requires
        1 <= tick_hz,
        elapsed_ticks * SPEED_OF_SOUND_CM_PER_S <= u64::MAX,
    ensures
        r as int == spec_distance_cm(elapsed_ticks as int, tick_hz as int),
{
    (elapsed_ticks * (SPEED_OF_SOUND_CM_PER_S as u64)) / (2 * (tick_hz as u64))
}

/// The dimming rule of the continuous drive: a target at or beyond the
/// near threshold yields no output; a closer target yields
/// `floor + (threshold - distance) * scale`, clamped to the ceiling. The
/// mapping is monotone: the closer the target, the stronger the output.
pub open spec fn spec_intensity(
    distance_cm: int,
    threshold_cm: int,
    floor: int,
    scale: int,
    ceiling: int,
) -> int {
    if distance_cm >= threshold_cm {
        0
    } else {
        let raw = floor + (threshold_cm - distance_cm) * scale;
        if raw > ceiling {
            ceiling
        } else {
            raw
        }
    }
}

/// The intensity never leaves `[0, ceiling]`.
pub proof fn lemma_intensity_in_range(
    distance_cm: int,
    threshold_cm: int,
    floor: int,
    scale: int,
    ceiling: int,
)
    requires
        0 <= distance_cm,
        0 <= floor <= ceiling,
        0 <= scale,
    ensures
        0 <= spec_intensity(distance_cm, threshold_cm, floor, scale, ceiling) <= ceiling,
{
    if distance_cm < threshold_cm {
        assert(0 <= (threshold_cm - distance_cm) * scale) by (nonlinear_arith)
            requires
                distance_cm < threshold_cm,
                0 <= scale,
        ;
    }
}

/// The mapping is antitone in the distance: output intensity never rises
/// as the target moves away.
pub proof fn lemma_intensity_antitone(
    d1: int,
    d2: int,
    threshold_cm: int,
    floor: int,
    scale: int,
    ceiling: int,
)
    requires
        0 <= d1 <= d2,
        0 <= floor <= ceiling,
        0 <= scale,
    ensures
        spec_intensity(d2, threshold_cm, floor, scale, ceiling) <= spec_intensity(
            d1,
            threshold_cm,
            floor,
            scale,
            ceiling,
        ),
{
    lemma_intensity_in_range(d1, threshold_cm, floor, scale, ceiling);
    lemma_intensity_in_range(d2, threshold_cm, floor, scale, ceiling);
    if d2 < threshold_cm {
        assert((threshold_cm - d2) * scale <= (threshold_cm - d1) * scale) by (nonlinear_arith)
            requires
                d1 <= d2,
                0 <= scale,
        ;
    }
}

/// Applies the dimming rule to a sensed distance.
pub fn intensity_from_distance(
    distance_cm: u64,
    threshold_cm: u32,
    floor: u32,
    scale: u32,
    ceiling: u32,
) -> (r: u32)
    requires
        floor <= ceiling,
    ensures
        r as int == spec_intensity(
            distance_cm as int,
            threshold_cm as int,
            floor as int,
            scale as int,
            ceiling as int,
        ),
{
    if distance_cm >= threshold_cm as u64 {
        return 0;
    }
    let step: u64 = (threshold_cm as u64) - distance_cm;
    proof {
        assert(step * scale <= 0xffff_ffffu64 * 0xffff_ffffu64) by (nonlinear_arith)
            requires
                0 <= step <= 0xffff_ffffu64,
                0 <= scale as int <= 0xffff_ffffu64,
        ;
    }
    let raw: u64 = (floor as u64) + step * (scale as u64);
    if raw > ceiling as u64 {
        ceiling
    } else {
        raw as u32
    }
}

/// The dimming decision of one sensing cycle: the measured pulse, when its
/// edges are ordered, becomes a distance and then the compare value to
/// apply. A meaningless measurement yields no decision, and the caller
/// keeps the previous output for the cycle.
pub fn duty_for_measurement(
    m: &PulseMeasurement,
    tick_hz: u32,
    threshold_cm: u32,
    floor: u32,
    scale: u32,
    ceiling: u32,
) -> (r: Option<u32>)
    requires
        1 <= tick_hz,
        floor <= ceiling,
        m.ordered() ==> (m.high_edge_tick - m.low_edge_tick) * SPEED_OF_SOUND_CM_PER_S
            <= u64::MAX,
    ensures
        r is Some <==> m.ordered(),
        r matches Some(duty) ==> duty as int == spec_intensity(
            spec_distance_cm(m.high_edge_tick - m.low_edge_tick, tick_hz as int),
            threshold_cm as int,
            floor as int,
            scale as int,
            ceiling as int,
        ),
{
    let elapsed = match m.elapsed_ticks() {
        Some(e) => e,
        None => { return None; },
    };
    let d = distance_cm_from_ticks(elapsed, tick_hz);
    Some(intensity_from_distance(d, threshold_cm, floor, scale, ceiling))
}

} // verus!
