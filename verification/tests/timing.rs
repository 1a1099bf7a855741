use nightstand::timing::{
    duration_to_ticks, PinLevel, Pulse, TimingComputationError, Timings, MAX_PULSE_TICKS,
};

#[test]
fn ticks_at_eighty_megahertz() {
    let timings = Timings::from_clock(80_000_000).expect("supported clock");
    assert_eq!(timings.t0h, Pulse { level: PinLevel::High, ticks: 28 });
    assert_eq!(timings.t0l, Pulse { level: PinLevel::Low, ticks: 64 });
    assert_eq!(timings.t1h, Pulse { level: PinLevel::High, ticks: 56 });
    assert_eq!(timings.t1l, Pulse { level: PinLevel::Low, ticks: 48 });
    assert_eq!(timings.rst, Pulse { level: PinLevel::Low, ticks: 4000 });
}

#[test]
fn ticks_are_rounded_to_nearest() {
    // 350 ns at 10 MHz is 3.5 ticks.
    assert_eq!(duration_to_ticks(10_000_000, 350), Ok(4));
    // 349 ns is 3.49 ticks, 351 ns is 3.51 ticks.
    assert_eq!(duration_to_ticks(10_000_000, 349), Ok(3));
    assert_eq!(duration_to_ticks(10_000_000, 351), Ok(4));
    // 700 ns at 1 MHz is 0.7 ticks; 350 ns is 0.35 ticks.
    assert_eq!(duration_to_ticks(1_000_000, 700), Ok(1));
    assert_eq!(duration_to_ticks(1_000_000, 350), Ok(0));
    assert_eq!(duration_to_ticks(0, 50_000), Ok(0));
    assert_eq!(duration_to_ticks(80_000_000, 0), Ok(0));
}

#[test]
fn reset_gap_is_fifty_microseconds() {
    let timings = Timings::from_clock(1_000_000).expect("supported clock");
    assert_eq!(timings.rst.ticks, 50);
    assert_eq!(timings.rst.level, PinLevel::Low);
}

#[test]
fn tick_count_must_fit_fifteen_bits() {
    assert_eq!(MAX_PULSE_TICKS, 32_767);
    assert_eq!(duration_to_ticks(1_000_000_000, 32_767), Ok(32_767));
    assert_eq!(duration_to_ticks(1_000_000_000, 32_768), Err(TimingComputationError));
    assert_eq!(duration_to_ticks(u32::MAX, u64::MAX), Err(TimingComputationError));
}

#[test]
fn clock_too_fast_for_the_reset_gap_is_refused() {
    assert!(Timings::from_clock(655_349_999).is_ok());
    assert_eq!(Timings::from_clock(655_349_999).unwrap().rst.ticks, 32_767);
    assert_eq!(Timings::from_clock(655_350_000), Err(TimingComputationError));
    assert_eq!(Timings::from_clock(u32::MAX), Err(TimingComputationError));
}

#[test]
fn pulse_constructors() {
    assert_eq!(Pulse::new(PinLevel::High, 7), Pulse { level: PinLevel::High, ticks: 7 });
    assert_eq!(
        Pulse::new_with_duration(80_000_000, PinLevel::Low, 600),
        Ok(Pulse { level: PinLevel::Low, ticks: 48 })
    );
    assert_eq!(
        Pulse::new_with_duration(1_000_000_000, PinLevel::Low, 50_000),
        Err(TimingComputationError)
    );
}
