//! Decision logic of the pulse-width distance sampler: the trigger
//! pattern, and the busy-polling state machine that records the rising and
//! falling edge of the echo pulse against a monotonic tick clock, with a
//! bounded wait in each polling phase.
//!
//! The platform loop owns the pins and the clock; each time it reads the
//! tick counter and the echo level it hands the observation to [`poll`],
//! which decides how the cycle goes on. An observation past the phase
//! deadline always ends the cycle with [`WaveError::EchoTimeout`] instead
//! of letting the loop block forever.

use vstd::prelude::*;
use crate::error::WaveError;

verus! {

/// The two levels of a digital line.
#[derive(Clone, Copy, Debug, PartialEq, Eq, Structural)]
pub enum Level {
    Low,
    High,
}

/// One instruction of the trigger pattern, performed in order by the
/// platform loop on the trigger output pin.
#[derive(Clone, Copy, Debug, PartialEq, Eq, Structural)]
pub enum TriggerStep {
    /// Drive the trigger line to this level.
    Drive(Level),
    /// Hold the line for this many microseconds.
    WaitUs(u32),
}

/// Settle time before each sampling cycle, in milliseconds.
pub const SETTLE_DELAY_MS: u32 = 5;

/// Hold time of the cleared trigger line before the pulse, in microseconds.
pub const TRIGGER_CLEAR_US: u32 = 2;

/// Width of the trigger pulse, in microseconds.
pub const TRIGGER_PULSE_US: u32 = 10;

/// The fixed trigger pattern that starts a sampling cycle: clear any stale
/// state by driving low, hold briefly, emit the short high pulse, and
/// return the line to low.
pub fn trigger_steps() -> (r: Vec<TriggerStep>)
    ensures
        r@.len() == 5,
        r@[0] == TriggerStep::Drive(Level::Low),
        r@[1] == TriggerStep::WaitUs(TRIGGER_CLEAR_US),
        r@[2] == TriggerStep::Drive(Level::High),
        r@[3] == TriggerStep::WaitUs(TRIGGER_PULSE_US),
        r@[4] == TriggerStep::Drive(Level::Low),
{
    let mut steps: Vec<TriggerStep> = Vec::new();
    steps.push(TriggerStep::Drive(Level::Low));
    steps.push(TriggerStep::WaitUs(TRIGGER_CLEAR_US));
    steps.push(TriggerStep::Drive(Level::High));
    steps.push(TriggerStep::WaitUs(TRIGGER_PULSE_US));
    steps.push(TriggerStep::Drive(Level::Low));
    steps
}

/// The recorded edges of one echo pulse, as ticks of the monotonic clock.
#[derive(Clone, Copy, Debug, PartialEq, Eq, Structural)]
pub struct PulseMeasurement {
    /// The last tick observed while the echo line still read low.
    pub low_edge_tick: u64,
    /// The last tick observed while the echo line still read high.
    pub high_edge_tick: u64,
}

impl PulseMeasurement {
    /// The leading edge was read no later than the trailing edge, so the
    /// unsigned difference of the two ticks is meaningful.
    pub open spec fn ordered(self) -> bool {
        self.low_edge_tick <= self.high_edge_tick
    }

    /// The width of the pulse in ticks. A measurement whose trailing edge
    /// was read before its leading edge is rejected rather than left to
    /// wrap around into a huge difference.
    pub fn elapsed_ticks(&self) -> (r: Option<u64>)
        ensures
            r is Some <==> self.ordered(),
            r matches Some(e) ==> e == self.high_edge_tick - self.low_edge_tick,
    {
        if self.low_edge_tick <= self.high_edge_tick {
            Some(self.high_edge_tick - self.low_edge_tick)
        } else {
            None
        }
    }
}

/// The two busy-polling phases of a sampling cycle. The remaining phases
/// of the cycle need no recorded state: the settle delay and the trigger
/// pattern precede [`start_await`], and a finished measurement is handed
/// back through [`PollOutcome::Done`].
#[derive(Clone, Copy, Debug, PartialEq, Eq, Structural)]
pub enum SamplerState {
    /// Polling while the echo line reads low, waiting for it to rise.
    AwaitingEcho {
        /// The tick past which this phase reports a timeout.
        deadline_tick: u64,
        /// The last tick observed while the line read low.
        last_low_tick: u64,
    },
    /// Polling while the echo line reads high, waiting for it to fall.
    MeasuringEcho {
        /// The tick past which this phase reports a timeout.
        deadline_tick: u64,
        /// The leading edge retained from the awaiting phase.
        low_edge_tick: u64,
        /// The last tick observed while the line read high.
        last_high_tick: u64,
    },
}

impl SamplerState {
    /// Recorded ticks are consistent: in the measuring phase the leading
    /// edge is no later than the last high sample.
    pub open spec fn wf(self) -> bool {
        match self {
            SamplerState::AwaitingEcho { .. } => true,
            SamplerState::MeasuringEcho { low_edge_tick, last_high_tick, .. } => low_edge_tick
                <= last_high_tick,
        }
    }

    /// The most recent tick this state has recorded.
    pub open spec fn latest_tick(self) -> u64 {
        match self {
            SamplerState::AwaitingEcho { last_low_tick, .. } => last_low_tick,
            SamplerState::MeasuringEcho { last_high_tick, .. } => last_high_tick,
        }
    }

    /// The tick past which the current phase times out.
    pub open spec fn deadline(self) -> u64 {
        match self {
            SamplerState::AwaitingEcho { deadline_tick, .. } => deadline_tick,
            SamplerState::MeasuringEcho { deadline_tick, .. } => deadline_tick,
        }
    }
}

/// What one poll observation decides.
#[derive(Clone, Copy, Debug, PartialEq, Eq)]
pub enum PollOutcome {
    /// The cycle goes on in this state.
    Pending(SamplerState),
    /// The cycle is over: an echo pulse was measured, or a phase exceeded
    /// its bound and the cycle reports no reading.
    Done(Result<PulseMeasurement, WaveError>),
}

/// The transition relation of the sampler: how one busy-poll observation
/// (the current tick and the echo level) advances the cycle.
///
/// The deadline is tested first, so no observation past the bound can keep
/// the cycle pending. A rising edge fixes the leading-edge timestamp and
/// starts the measuring phase with a fresh deadline; a falling edge ends
/// the cycle with the recorded pulse.
pub open spec fn spec_poll(
    s: SamplerState,
    now_tick: u64,
    level: Level,
    max_wait_ticks: u64,
) -> PollOutcome {
    if now_tick > s.deadline() {
        PollOutcome::Done(Err(WaveError::EchoTimeout))
    } else {
        match s {
            SamplerState::AwaitingEcho { deadline_tick, last_low_tick } => {
                if level is High {
                    PollOutcome::Pending(
                        SamplerState::MeasuringEcho {
                            deadline_tick: (now_tick + max_wait_ticks) as u64,
                            low_edge_tick: last_low_tick,
                            last_high_tick: now_tick,
                        },
                    )
                } else {
                    PollOutcome::Pending(
                        SamplerState::AwaitingEcho { deadline_tick, last_low_tick: now_tick },
                    )
                }
            },
            SamplerState::MeasuringEcho { deadline_tick, low_edge_tick, last_high_tick } => {
                if level is High {
                    PollOutcome::Pending(
                        SamplerState::MeasuringEcho {
                            deadline_tick,
                            low_edge_tick,
                            last_high_tick: now_tick,
                        },
                    )
                } else {
                    PollOutcome::Done(
                        Ok(PulseMeasurement { low_edge_tick, high_edge_tick: last_high_tick }),
                    )
                }
            },
        }
    }
}

/// Enters the awaiting phase, right after the trigger pattern was sent:
/// the phase deadline lies `max_wait_ticks` ahead, and the current tick
/// stands in for the leading edge until a low level is observed.
pub fn start_await(now_tick: u64, max_wait_ticks: u64) -> (s: SamplerState)
    requires
        now_tick + max_wait_ticks <= u64::MAX,
    ensures
        s == (SamplerState::AwaitingEcho {
            deadline_tick: (now_tick + max_wait_ticks) as u64,
            last_low_tick: now_tick,
        }),
        s.wf(),
        s.latest_tick() == now_tick,
{
    SamplerState::AwaitingEcho {
        deadline_tick: now_tick + max_wait_ticks,
        last_low_tick: now_tick,
    }
}

/// Advances the cycle by one observation of the echo line, exactly as
/// [`spec_poll`] describes. The tick clock is monotonic, so the
/// observation is no earlier than anything already recorded.
pub fn poll(s: SamplerState, now_tick: u64, level: Level, max_wait_ticks: u64) -> (r: PollOutcome)
    requires
        s.wf(),
        s.latest_tick() <= now_tick,
        now_tick + max_wait_ticks <= u64::MAX,
    ensures
        r == spec_poll(s, now_tick, level, max_wait_ticks),
        r matches PollOutcome::Pending(s2) ==> s2.wf() && s2.latest_tick() == now_tick,
        r matches PollOutcome::Done(Ok(m)) ==> m.ordered(),
{
    if now_tick > match s {
        SamplerState::AwaitingEcho { deadline_tick, .. } => deadline_tick,
        SamplerState::MeasuringEcho { deadline_tick, .. } => deadline_tick,
    } {
        return PollOutcome::Done(Err(WaveError::EchoTimeout));
    }
    match s {
        SamplerState::AwaitingEcho { deadline_tick, last_low_tick } => {
            match level {
                Level::High => PollOutcome::Pending(
                    SamplerState::MeasuringEcho {
                        deadline_tick: now_tick + max_wait_ticks,
                        low_edge_tick: last_low_tick,
                        last_high_tick: now_tick,
                    },
                ),
                Level::Low => PollOutcome::Pending(
                    SamplerState::AwaitingEcho { deadline_tick, last_low_tick: now_tick },
                ),
            }
        },
        SamplerState::MeasuringEcho { deadline_tick, low_edge_tick, last_high_tick } => {
            match level {
                Level::High => PollOutcome::Pending(
                    SamplerState::MeasuringEcho {
                        deadline_tick,
                        low_edge_tick,
                        last_high_tick: now_tick,
                    },
                ),
                Level::Low => PollOutcome::Done(
                    Ok(PulseMeasurement { low_edge_tick, high_edge_tick: last_high_tick }),
                ),
            }
        },
    }
}

/// If the echo line never makes the awaited transition, the cycle does not
/// block past its bound: every observation later than the phase deadline
/// ends the cycle with `EchoTimeout`, whatever level the line reads.
pub proof fn lemma_poll_past_deadline_times_out(
    s: SamplerState,
    now_tick: u64,
    level: Level,
    max_wait_ticks: u64,
)
    requires
        now_tick > s.deadline(),
    ensures
        spec_poll(s, now_tick, level, max_wait_ticks) == PollOutcome::Done(
            Err::<PulseMeasurement, WaveError>(WaveError::EchoTimeout),
        ),
{
}

/// A cycle that stays pending keeps a deadline no further than
/// `max_wait_ticks` past the observation that renewed it, so the total
/// wait of a cycle is bounded by two phase bounds.
pub proof fn lemma_poll_pending_deadline_bounded(
    s: SamplerState,
    now_tick: u64,
    level: Level,
    max_wait_ticks: u64,
)
    requires
        s.wf(),
        s.latest_tick() <= now_tick,
        now_tick + max_wait_ticks <= u64::MAX,
    ensures
        spec_poll(s, now_tick, level, max_wait_ticks) matches PollOutcome::Pending(s2) ==> s2.deadline()
            <= vstd::math::max(s.deadline() as int, now_tick + max_wait_ticks),
{
}

} // verus!
