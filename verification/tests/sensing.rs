use wavegen::distance::{distance_cm_from_ticks, duty_for_measurement, intensity_from_distance};
use wavegen::error::WaveError;
use wavegen::sampler::{
    poll, start_await, trigger_steps, Level, PollOutcome, PulseMeasurement, SamplerState,
    TriggerStep, TRIGGER_CLEAR_US, TRIGGER_PULSE_US,
};

/// A simulated echo input pin: a fixed schedule of levels, one read per
/// poll; the last level repeats once the schedule is exhausted.
struct SimEchoPin {
    levels: Vec<Level>,
    next: usize,
}

impl SimEchoPin {
    fn new(levels: Vec<Level>) -> SimEchoPin {
        SimEchoPin { levels, next: 0 }
    }

    fn read(&mut self) -> Level {
        let i = self.next.min(self.levels.len() - 1);
        self.next += 1;
        self.levels[i]
    }
}

/// Runs one sampling cycle against the simulated pin, advancing the tick
/// clock by `tick_step` per poll, and counts the polls taken.
fn run_cycle(
    pin: &mut SimEchoPin,
    start_tick: u64,
    tick_step: u64,
    max_wait_ticks: u64,
) -> (Result<PulseMeasurement, WaveError>, u64) {
    let mut state = start_await(start_tick, max_wait_ticks);
    let mut now = start_tick;
    let mut polls = 0;
    loop {
        now += tick_step;
        polls += 1;
        assert!(polls <= 1_000_000, "the sampler must not poll unboundedly");
        match poll(state, now, pin.read(), max_wait_ticks) {
            PollOutcome::Pending(next) => state = next,
            PollOutcome::Done(result) => return (result, polls),
        }
    }
}

#[test]
fn trigger_pattern() {
    let steps = trigger_steps();
    assert_eq!(
        steps,
        vec![
            TriggerStep::Drive(Level::Low),
            TriggerStep::WaitUs(TRIGGER_CLEAR_US),
            TriggerStep::Drive(Level::High),
            TriggerStep::WaitUs(TRIGGER_PULSE_US),
            TriggerStep::Drive(Level::Low),
        ]
    );
}

#[test]
fn cycle_measures_a_pulse() {
    // Low at ticks 100 and 200, high at 300 and 400, low again at 500:
    // leading edge 200, trailing edge 400, so the pulse is 200 ticks wide.
    let mut pin = SimEchoPin::new(vec![
        Level::Low,
        Level::Low,
        Level::High,
        Level::High,
        Level::Low,
    ]);
    let (result, polls) = run_cycle(&mut pin, 0, 100, 10_000);
    assert_eq!(
        result,
        Ok(PulseMeasurement { low_edge_tick: 200, high_edge_tick: 400 })
    );
    assert_eq!(polls, 5);
}

#[test]
fn cycle_times_out_when_echo_never_rises() {
    // The line stays low past the 500-tick bound: the cycle reports a
    // timeout instead of polling on, within a handful of polls.
    let mut pin = SimEchoPin::new(vec![Level::Low]);
    let (result, polls) = run_cycle(&mut pin, 0, 100, 500);
    assert_eq!(result, Err(WaveError::EchoTimeout));
    assert_eq!(polls, 6);
}

#[test]
fn cycle_times_out_when_echo_never_falls() {
    // The line rises at once and then stays high past the bound.
    let mut pin = SimEchoPin::new(vec![Level::High]);
    let (result, _) = run_cycle(&mut pin, 0, 100, 500);
    assert_eq!(result, Err(WaveError::EchoTimeout));
}

#[test]
fn poll_past_deadline_reports_timeout_whatever_the_level() {
    let state = start_await(0, 500);
    for level in [Level::Low, Level::High] {
        assert_eq!(
            poll(state, 501, level, 500),
            PollOutcome::Done(Err(WaveError::EchoTimeout))
        );
    }
    let measuring = SamplerState::MeasuringEcho {
        deadline_tick: 600,
        low_edge_tick: 100,
        last_high_tick: 550,
    };
    for level in [Level::Low, Level::High] {
        assert_eq!(
            poll(measuring, 601, level, 500),
            PollOutcome::Done(Err(WaveError::EchoTimeout))
        );
    }
}

#[test]
fn measurement_guard_rejects_reversed_edges() {
    let reversed = PulseMeasurement { low_edge_tick: 500, high_edge_tick: 100 };
    assert_eq!(reversed.elapsed_ticks(), None);
    assert_eq!(duty_for_measurement(&reversed, 1_000_000, 30, 1000, 50, 60_000), None);
}

#[test]
fn elapsed_ticks_of_ordered_measurement() {
    let m = PulseMeasurement { low_edge_tick: 200, high_edge_tick: 400 };
    assert_eq!(m.elapsed_ticks(), Some(200));
}

#[test]
fn distance_from_pulse_width() {
    // A 1750 us echo at one tick per microsecond: 1750 * 34300 / 2e6 cm.
    assert_eq!(distance_cm_from_ticks(1750, 1_000_000), 30);
    assert_eq!(distance_cm_from_ticks(0, 1_000_000), 0);
    // 583 us is roughly ten centimetres.
    assert_eq!(distance_cm_from_ticks(583, 1_000_000), 9);
}

#[test]
fn intensity_linear_mapping() {
    // Threshold 30 cm, floor 1000, scale 50: touching the sensor gives
    // 2500, the linear midpoint 1750, and anything at or past 30 cm is off.
    assert_eq!(intensity_from_distance(0, 30, 1000, 50, 60_000), 2500);
    assert_eq!(intensity_from_distance(15, 30, 1000, 50, 60_000), 1750);
    assert_eq!(intensity_from_distance(30, 30, 1000, 50, 60_000), 0);
    assert_eq!(intensity_from_distance(100, 30, 1000, 50, 60_000), 0);
}

#[test]
fn intensity_clamps_to_ceiling() {
    assert_eq!(intensity_from_distance(0, 30, 1000, 50, 2000), 2000);
}

#[test]
fn intensity_never_rises_with_distance() {
    let mut previous = u32::MAX;
    for distance in 0..40u64 {
        let intensity = intensity_from_distance(distance, 30, 1000, 50, 60_000);
        assert!(intensity <= previous);
        previous = intensity;
    }
}

#[test]
fn dimming_duty_from_measurement() {
    // 875 us of echo is 15 cm: the linear midpoint of the mapping.
    let near = PulseMeasurement { low_edge_tick: 0, high_edge_tick: 875 };
    assert_eq!(
        duty_for_measurement(&near, 1_000_000, 30, 1000, 50, 60_000),
        Some(1750)
    );
    // 1750 us is 30 cm: at the threshold the output is off.
    let at_threshold = PulseMeasurement { low_edge_tick: 1000, high_edge_tick: 2750 };
    assert_eq!(
        duty_for_measurement(&at_threshold, 1_000_000, 30, 1000, 50, 60_000),
        Some(0)
    );
}
