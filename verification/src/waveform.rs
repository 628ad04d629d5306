//! Mapping physical quantities onto the counter's register space: a target
//! frequency onto the period ("top") register, and a duty ratio onto the
//! compare register, together with the step plans that sequence a tone or a
//! servo sweep over time.

use vstd::prelude::*;
use crate::arith::{
    lemma_rounded_div_close, lemma_rounded_div_le_dividend, lemma_rounded_div_nonneg,
    lemma_rounded_div_of_multiple, lemma_rounded_div_ordered, rounded_div,
};
use crate::error::WaveError;
use crate::tempo::{envelope_split, note_duration_ms, spec_note_duration_ms};

verus! {

/// The counter input: a base clock in hertz and an integer divisor.
/// Fixed for the lifetime of a channel.
pub struct ClockConfig {
    pub clock_hz: u32,
    pub divisor: u8,
}

impl ClockConfig {
    /// A usable configuration: a running clock and a divisor of at least one.
    pub open spec fn wf(self) -> bool {
        1 <= self.clock_hz && 1 <= self.divisor
    }

    pub fn new(clock_hz: u32, divisor: u8) -> (r: ClockConfig)
        requires
            1 <= clock_hz,
            1 <= divisor,
        ensures
            r.wf(),
            r.clock_hz == clock_hz,
            r.divisor == divisor,
    {
        ClockConfig { clock_hz, divisor }
    }

    /// The period register for a target frequency on this channel.
    pub fn period_for(&self, target_hz: u32) -> (r: Result<u32, WaveError>)
        requires
            self.wf(),
        ensures
            r is Ok <==> frequency_valid(self.clock_hz as int, target_hz as int, self.divisor as int),
            r matches Ok(top) ==> {
                &&& top as int == spec_period_cycles(self.clock_hz as int, target_hz as int, self.divisor as int) - 1
                &&& 1 <= top
            },
            r is Err ==> r == Err::<u32, WaveError>(WaveError::InvalidFrequency),
    {
        period_for_frequency(target_hz, self.clock_hz, self.divisor)
    }
}

/// The number of counter cycles per output period: `clock_hz / (target_hz *
/// divisor)` rounded to the nearest integer. The counter counts from `0` to
/// `top` inclusive, so the register value is this count less one.
pub open spec fn spec_period_cycles(clock_hz: int, target_hz: int, divisor: int) -> int {
    rounded_div(clock_hz, target_hz * divisor)
}

/// A target frequency the channel can realise: positive, and slow enough
/// that the period register stays at least one.
pub open spec fn frequency_valid(clock_hz: int, target_hz: int, divisor: int) -> bool {
    1 <= target_hz && 2 <= spec_period_cycles(clock_hz, target_hz, divisor)
}

/// Computes the period ("top") register value whose output frequency is
/// nearest the target. A target of zero, or one so high that the period
/// would fall below one, is rejected rather than left to wrap around.
pub fn period_for_frequency(target_hz: u32, clock_hz: u32, divisor: u8) -> (r: Result<u32, WaveError>)
    requires
        1 <= clock_hz,
        1 <= divisor,
    ensures
        r is Ok <==> frequency_valid(clock_hz as int, target_hz as int, divisor as int),
        r matches Ok(top) ==> {
            &&& top as int == spec_period_cycles(clock_hz as int, target_hz as int, divisor as int) - 1
            &&& 1 <= top
        },
        r is Err ==> r == Err::<u32, WaveError>(WaveError::InvalidFrequency),
{
    if target_hz == 0 {
        return Err(WaveError::InvalidFrequency);
    }
    proof {
        assert(1 <= target_hz as int * divisor as int <= 0xff * 0xffff_ffffu64) by (nonlinear_arith)
            requires
                1 <= target_hz as int <= 0xffff_ffff,
                1 <= divisor as int <= 0xff,
        ;
    }
    let d: u64 = (target_hz as u64) * (divisor as u64);
    let num: u64 = 2 * (clock_hz as u64) + d;
    let den: u64 = 2 * d;
    let cycles: u64 = num / den;
    proof {
        assert(cycles == spec_period_cycles(clock_hz as int, target_hz as int, divisor as int));
        lemma_rounded_div_le_dividend(clock_hz as int, d as int);
    }
    if cycles < 2 {
        return Err(WaveError::InvalidFrequency);
    }
    Ok((cycles - 1) as u32)
}

/// A target frequency the rounding step resolves to within one hertz:
/// positive, and low enough for the given clock and divisor that one step
/// of the period register moves the output frequency by at most a hertz
/// (roughly, targets up to the square root of `2 * clock_hz / divisor`).
pub open spec fn frequency_resolvable(clock_hz: int, target_hz: int, divisor: int) -> bool {
    1 <= target_hz && (target_hz + 1) * target_hz * divisor <= 2 * clock_hz
}

/// For a resolvable target frequency, the period register chosen by
/// `period_for_frequency` realises an effective output frequency
/// `clock_hz / (divisor * (top + 1))` within one hertz of the target:
/// stated here multiplied out, `target_hz - 1 <= effective <= target_hz + 1`.
pub proof fn lemma_effective_frequency_within_one_hz(
    clock_hz: int,
    target_hz: int,
    divisor: int,
    top: int,
)
    requires
        1 <= clock_hz,
        1 <= divisor,
        frequency_resolvable(clock_hz, target_hz, divisor),
        top + 1 == spec_period_cycles(clock_hz, target_hz, divisor),
        1 <= top,
    ensures
        (target_hz - 1) * (divisor * (top + 1)) <= clock_hz,
        clock_hz <= (target_hz + 1) * (divisor * (top + 1)),
{
    let d = target_hz * divisor;
    let n = top + 1;
    assert(1 <= d) by (nonlinear_arith)
        requires
            d == target_hz * divisor,
            1 <= target_hz,
            1 <= divisor,
    ;
    lemma_rounded_div_close(clock_hz, d);
    assert(target_hz <= 2 * n) by (nonlinear_arith)
        requires
            1 <= target_hz,
            1 <= divisor,
            1 <= n,
            d == target_hz * divisor,
            2 * clock_hz - d <= 2 * d * n,
            (target_hz + 1) * target_hz * divisor <= 2 * clock_hz,
    ;
    assert((target_hz - 1) * (divisor * n) <= clock_hz) by (nonlinear_arith)
        requires
            1 <= divisor,
            1 <= n,
            target_hz <= 2 * n,
            d == target_hz * divisor,
            2 * d * n <= 2 * clock_hz + d,
    ;
    assert(clock_hz <= (target_hz + 1) * (divisor * n)) by (nonlinear_arith)
        requires
            1 <= divisor,
            1 <= n,
            target_hz <= 2 * n,
            d == target_hz * divisor,
            2 * clock_hz - d <= 2 * d * n,
    ;
}

/// The compare value for a duty ratio of `numer / denom` of the period:
/// `top * numer / denom` rounded to the nearest integer.
pub open spec fn spec_duty_scaled(top: int, numer: int, denom: int) -> int {
    rounded_div(top * numer, denom)
}

/// The compare value for a duty percentage.
pub open spec fn spec_duty(top: int, percent: int) -> int {
    spec_duty_scaled(top, percent, 100)
}

/// The compare value for a duty ratio in thousandths.
pub open spec fn spec_duty_permille(top: int, permille: int) -> int {
    spec_duty_scaled(top, permille, 1000)
}

/// A ratio of at most one maps the period onto a compare value inside
/// `[0, top]`.
pub proof fn lemma_duty_scaled_in_range(top: int, numer: int, denom: int)
    requires
        1 <= top,
        1 <= denom,
        0 <= numer <= denom,
    ensures
        0 <= spec_duty_scaled(top, numer, denom) <= top,
{
    assert(0 <= top * numer <= top * denom) by (nonlinear_arith)
        requires
            1 <= top,
            0 <= numer <= denom,
    ;
    lemma_rounded_div_nonneg(top * numer, denom);
    lemma_rounded_div_ordered(top * numer, top * denom, denom);
    lemma_rounded_div_of_multiple(top, denom);
}

/// The compare value grows with the requested ratio.
pub proof fn lemma_duty_scaled_monotonic(top: int, n1: int, n2: int, denom: int)
    requires
        1 <= top,
        1 <= denom,
        0 <= n1 <= n2,
    ensures
        spec_duty_scaled(top, n1, denom) <= spec_duty_scaled(top, n2, denom),
{
    assert(0 <= top * n1 <= top * n2) by (nonlinear_arith)
        requires
            1 <= top,
            0 <= n1 <= n2,
    ;
    lemma_rounded_div_ordered(top * n1, top * n2, denom);
}

/// A duty of the full ratio is the whole period, and a duty of zero is a
/// permanently low output.
pub proof fn lemma_duty_scaled_endpoints(top: int, denom: int)
    requires
        1 <= top,
        1 <= denom,
    ensures
        spec_duty_scaled(top, 0, denom) == 0,
        spec_duty_scaled(top, denom, denom) == top,
{
    assert(top * 0 == 0) by (nonlinear_arith);
    vstd::arithmetic::div_mod::lemma_basic_div(denom, 2 * denom);
    lemma_rounded_div_of_multiple(top, denom);
}

/// Shared worker for the duty conversions: `top * numer / denom` rounded to
/// the nearest integer, which a ratio of at most one keeps inside `[0, top]`.
fn duty_scaled(top: u32, numer: u16, denom: u16) -> (r: u32)
    requires
        1 <= top,
        1 <= denom,
        numer <= denom,
    ensures
        r as int == spec_duty_scaled(top as int, numer as int, denom as int),
        r <= top,
{
    proof {
        assert(top as int * numer as int <= 0xffff * 0xffff_ffffu64) by (nonlinear_arith)
            requires
                top as int <= 0xffff_ffff,
                numer as int <= 0xffff,
        ;
        lemma_duty_scaled_in_range(top as int, numer as int, denom as int);
    }
    let a: u64 = (top as u64) * (numer as u64);
    let q: u64 = (2 * a + (denom as u64)) / (2 * (denom as u64));
    q as u32
}

/// Converts a duty percentage into the compare value nearest `top *
/// percent / 100`, clamped by construction to `[0, top]`. A percentage
/// above one hundred is rejected.
pub fn duty_from_percent(top: u32, percent: u8) -> (r: Result<u32, WaveError>)
    requires
        1 <= top,
    ensures
        r is Ok <==> percent <= 100,
        r matches Ok(duty) ==> {
            &&& duty as int == spec_duty(top as int, percent as int)
            &&& duty <= top
        },
        percent == 0 ==> r == Ok::<u32, WaveError>(0u32),
        percent == 100 ==> r == Ok::<u32, WaveError>(top),
        percent > 100 ==> r == Err::<u32, WaveError>(WaveError::InvalidDuty),
{
    if percent > 100 {
        return Err(WaveError::InvalidDuty);
    }
    proof {
        lemma_duty_scaled_endpoints(top as int, 100);
    }
    Ok(duty_scaled(top, percent as u16, 100))
}

/// Converts a duty ratio in thousandths into the compare value nearest
/// `top * permille / 1000`; serves fractional percentages such as servo
/// pulse widths. A ratio above one is rejected.
pub fn duty_from_permille(top: u32, permille: u16) -> (r: Result<u32, WaveError>)
    requires
        1 <= top,
    ensures
        r is Ok <==> permille <= 1000,
        r matches Ok(duty) ==> {
            &&& duty as int == spec_duty_permille(top as int, permille as int)
            &&& duty <= top
        },
        permille == 0 ==> r == Ok::<u32, WaveError>(0u32),
        permille == 1000 ==> r == Ok::<u32, WaveError>(top),
        permille > 1000 ==> r == Err::<u32, WaveError>(WaveError::InvalidDuty),
{
    if permille > 1000 {
        return Err(WaveError::InvalidDuty);
    }
    proof {
        lemma_duty_scaled_endpoints(top as int, 1000);
    }
    Ok(duty_scaled(top, permille, 1000))
}

/// One instruction of a channel's output schedule, performed in order by
/// the platform loop that owns the hardware.
#[derive(Clone, Copy, Debug, PartialEq, Eq, Structural)]
pub enum ChannelStep {
    /// Program the counter wraparound ("top") register.
    SetPeriod(u32),
    /// Program the compare register.
    SetCompare(u32),
    /// Hold the current output for this many milliseconds.
    WaitMs(u32),
}

/// The schedule of one note-with-gap envelope: program the period once,
/// hold the compare value for the sounding time, then hold zero (output
/// permanently low) for the silence.
pub fn tone_steps(top: u32, duty: u32, hold_ms: u32, silence_ms: u32) -> (r: Vec<ChannelStep>)
    requires
        1 <= top,
        duty <= top,
    ensures
        r@.len() == 5,
        r@[0] == ChannelStep::SetPeriod(top),
        r@[1] == ChannelStep::SetCompare(duty),
        r@[2] == ChannelStep::WaitMs(hold_ms),
        r@[3] == ChannelStep::SetCompare(0u32),
        r@[4] == ChannelStep::WaitMs(silence_ms),
{
    let mut steps: Vec<ChannelStep> = Vec::new();
    steps.push(ChannelStep::SetPeriod(top));
    steps.push(ChannelStep::SetCompare(duty));
    steps.push(ChannelStep::WaitMs(hold_ms));
    steps.push(ChannelStep::SetCompare(0));
    steps.push(ChannelStep::WaitMs(silence_ms));
    steps
}

/// The schedule of a discrete sweep: each position in turn, held for the
/// same fixed time.
pub fn sweep_steps(positions: &Vec<u32>, hold_ms: u32) -> (r: Vec<ChannelStep>)
    ensures
        r@.len() == 2 * positions@.len(),
        forall|i: int|
            0 <= i < positions@.len() ==> r@[2 * i] == ChannelStep::SetCompare(
                #[trigger] positions@[i],
            ) && r@[2 * i + 1] == ChannelStep::WaitMs(hold_ms),
{
    let mut steps: Vec<ChannelStep> = Vec::new();
    let mut k: usize = 0;
    while k < positions.len()
        invariant
            k <= positions@.len(),
            steps@.len() == 2 * k,
            forall|i: int|
                0 <= i < k ==> steps@[2 * i] == ChannelStep::SetCompare(
                    #[trigger] positions@[i],
                ) && steps@[2 * i + 1] == ChannelStep::WaitMs(hold_ms),
        decreases positions@.len() - k,
    {
        steps.push(ChannelStep::SetCompare(positions[k]));
        steps.push(ChannelStep::WaitMs(hold_ms));
        proof {
            assert(steps@[2 * k as int] == ChannelStep::SetCompare(positions@[k as int]));
            assert(steps@[2 * k as int + 1] == ChannelStep::WaitMs(hold_ms));
            assert(forall|i: int|
                0 <= i < k ==> steps@[2 * i] == ChannelStep::SetCompare(#[trigger] positions@[i])
                    && steps@[2 * i + 1] == ChannelStep::WaitMs(hold_ms));
        }
        k = k + 1;
    }
    steps
}

/// The full schedule of one scheduled note: the period for its pitch, a
/// half-amplitude square wave for nine tenths of the nominal duration, and
/// silence for the remaining tenth. A pitch the channel cannot realise is
/// reported as `InvalidFrequency` so that the caller can skip the note.
pub fn note_steps(clock: &ClockConfig, target_hz: u32, tempo_bpm: u32, note_type: i32) -> (r:
    Result<Vec<ChannelStep>, WaveError>)
    requires
        clock.wf(),
        1 <= tempo_bpm,
        note_type != 0,
        note_type != i32::MIN,
    ensures
        r is Ok <==> frequency_valid(clock.clock_hz as int, target_hz as int, clock.divisor as int),
        r matches Ok(steps) ==> {
            let top = spec_period_cycles(
                clock.clock_hz as int,
                target_hz as int,
                clock.divisor as int,
            ) - 1;
            let duration = spec_note_duration_ms(tempo_bpm as int, note_type as int);
            let silence = duration / 10;
            &&& steps@.len() == 5
            &&& steps@[0] == ChannelStep::SetPeriod(top as u32)
            &&& steps@[1] == ChannelStep::SetCompare(spec_duty(top, 50) as u32)
            &&& steps@[2] == ChannelStep::WaitMs((duration - silence) as u32)
            &&& steps@[3] == ChannelStep::SetCompare(0u32)
            &&& steps@[4] == ChannelStep::WaitMs(silence as u32)
        },
        r is Err ==> r == Err::<Vec<ChannelStep>, WaveError>(WaveError::InvalidFrequency),
{
    let top = match period_for_frequency(target_hz, clock.clock_hz, clock.divisor) {
        Ok(top) => top,
        Err(_) => { return Err(WaveError::InvalidFrequency); },
    };
    let duty = match duty_from_percent(top, 50) {
        Ok(duty) => duty,
        Err(_) => { return Err(WaveError::InvalidFrequency); },
    };
    let duration = note_duration_ms(tempo_bpm, note_type);
    let (hold_ms, silence_ms) = envelope_split(duration);
    Ok(tone_steps(top, duty, hold_ms, silence_ms))
}

} // verus!
