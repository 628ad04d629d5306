use wavegen::error::WaveError;
use wavegen::waveform::{
    duty_from_percent, duty_from_permille, note_steps, period_for_frequency, sweep_steps,
    tone_steps, ChannelStep, ClockConfig,
};

#[test]
fn period_440_hz_at_150_mhz_div_64() {
    // 150 MHz / (440 Hz * 64) = 5326.7 cycles, rounded to 5327, register 5326.
    assert_eq!(period_for_frequency(440, 150_000_000, 64), Ok(5326));
}

#[test]
fn period_rejects_overdriven_target() {
    // 3 MHz at this clock and divisor would need a period below one:
    // an error, never an underflowed huge register value.
    assert_eq!(
        period_for_frequency(3_000_000, 150_000_000, 64),
        Err(WaveError::InvalidFrequency)
    );
}

#[test]
fn period_rejects_zero_frequency() {
    assert_eq!(
        period_for_frequency(0, 150_000_000, 64),
        Err(WaveError::InvalidFrequency)
    );
}

#[test]
fn period_through_clock_config() {
    let clock = ClockConfig::new(150_000_000, 64);
    assert_eq!(clock.period_for(440), Ok(5326));
}

#[test]
fn duty_endpoints() {
    assert_eq!(duty_from_percent(46_874, 0), Ok(0));
    assert_eq!(duty_from_percent(46_874, 100), Ok(46_874));
}

#[test]
fn duty_midpoint() {
    assert_eq!(duty_from_percent(1000, 50), Ok(500));
}

#[test]
fn duty_rounds_to_nearest() {
    // 3 * 50 / 100 = 1.5 rounds up to 2.
    assert_eq!(duty_from_percent(3, 50), Ok(2));
}

#[test]
fn duty_rejects_over_one_hundred_percent() {
    assert_eq!(duty_from_percent(1000, 101), Err(WaveError::InvalidDuty));
    assert_eq!(duty_from_percent(1000, 255), Err(WaveError::InvalidDuty));
}

#[test]
fn duty_monotone_and_in_range_over_all_percents() {
    let top = 46_875;
    let mut previous = 0;
    for percent in 0..=100u8 {
        let duty = duty_from_percent(top, percent).unwrap();
        assert!(duty <= top);
        assert!(duty >= previous);
        previous = duty;
    }
}

#[test]
fn permille_servo_positions() {
    // The three servo set points: 2.5%, 7.5% and 12% of a 46875-cycle period.
    assert_eq!(duty_from_permille(46_875, 25), Ok(1172));
    assert_eq!(duty_from_permille(46_875, 75), Ok(3516));
    assert_eq!(duty_from_permille(46_875, 120), Ok(5625));
}

#[test]
fn permille_rejects_over_full_scale() {
    assert_eq!(duty_from_permille(46_875, 1001), Err(WaveError::InvalidDuty));
}

#[test]
fn tone_steps_sequence() {
    let steps = tone_steps(5326, 2663, 450, 50);
    assert_eq!(
        steps,
        vec![
            ChannelStep::SetPeriod(5326),
            ChannelStep::SetCompare(2663),
            ChannelStep::WaitMs(450),
            ChannelStep::SetCompare(0),
            ChannelStep::WaitMs(50),
        ]
    );
}

#[test]
fn sweep_steps_sequence() {
    let positions = vec![1172, 3516, 5625];
    let steps = sweep_steps(&positions, 1000);
    assert_eq!(
        steps,
        vec![
            ChannelStep::SetCompare(1172),
            ChannelStep::WaitMs(1000),
            ChannelStep::SetCompare(3516),
            ChannelStep::WaitMs(1000),
            ChannelStep::SetCompare(5625),
            ChannelStep::WaitMs(1000),
        ]
    );
}

#[test]
fn sweep_steps_of_no_positions_is_empty() {
    let steps = sweep_steps(&vec![], 1000);
    assert!(steps.is_empty());
}

#[test]
fn note_steps_quarter_note_at_120_bpm() {
    // A quarter note at 120 bpm lasts 500 ms, split 450 ms tone / 50 ms gap;
    // 50% duty of a 5326 period is 2663.
    let clock = ClockConfig::new(150_000_000, 64);
    let steps = note_steps(&clock, 440, 120, 4).unwrap();
    assert_eq!(
        steps,
        vec![
            ChannelStep::SetPeriod(5326),
            ChannelStep::SetCompare(2663),
            ChannelStep::WaitMs(450),
            ChannelStep::SetCompare(0),
            ChannelStep::WaitMs(50),
        ]
    );
}

#[test]
fn note_steps_rejects_unplayable_pitch() {
    let clock = ClockConfig::new(150_000_000, 64);
    assert_eq!(
        note_steps(&clock, 3_000_000, 120, 4),
        Err(WaveError::InvalidFrequency)
    );
}
