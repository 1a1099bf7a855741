//! Pulses and the timing set of the one-wire LED protocol.
//!
//! A pulse is a pin level held for a number of ticks of the transmitter's
//! counter. The five durations of the protocol are turned into tick counts
//! once, from the counter frequency, and are then shared read-only.

use vstd::prelude::*;

verus! {

/// Level of the data line during a pulse.
#[derive(Clone, Copy, Debug, PartialEq, Eq, Structural)]
pub enum PinLevel {
    Low,
    High,
}

/// One segment of the output waveform: a level and how long it is held.
#[derive(Clone, Copy, Debug, PartialEq, Eq, Structural)]
pub struct Pulse {
    pub level: PinLevel,
    pub ticks: u16,
}

/// A duration has no tick count that the transmitter can hold at the given
/// counter frequency.
#[derive(Clone, Copy, Debug, PartialEq, Eq, Structural)]
pub struct TimingComputationError;

/// Largest tick count of one pulse: the transmitter stores it in 15 bits.
pub const MAX_PULSE_TICKS: u16 = 32_767;

/// High time of a logic-0 bit, in nanoseconds.
pub const T0H_NANOS: u64 = 350;

/// Low time of a logic-0 bit, in nanoseconds.
pub const T0L_NANOS: u64 = 800;

/// High time of a logic-1 bit, in nanoseconds.
pub const T1H_NANOS: u64 = 700;

/// Low time of a logic-1 bit, in nanoseconds.
pub const T1L_NANOS: u64 = 600;

/// Low time that ends a frame, in nanoseconds.
pub const RESET_NANOS: u64 = 50_000;

/// The tick count nearest to `nanos` nanoseconds on a counter that runs at
/// `ticks_hz`: `round(nanos * ticks_hz / 10^9)`, halves rounded up.
pub open spec fn nearest_ticks(ticks_hz: int, nanos: int) -> int {
    (2 * (nanos * ticks_hz) + 1_000_000_000) / 2_000_000_000
}

/// Whether the nearest tick count fits the transmitter's duration field.
pub open spec fn representable(ticks_hz: int, nanos: int) -> bool {
    nearest_ticks(ticks_hz, nanos) <= 32_767
}

/// The five pulses of the protocol at one counter frequency.
#[derive(Clone, Copy, Debug, PartialEq, Eq, Structural)]
pub struct Timings {
    pub t0h: Pulse,
    pub t0l: Pulse,
    pub t1h: Pulse,
    pub t1l: Pulse,
    pub rst: Pulse,
}

/// The timing set that [`Timings::from_clock`] derives when every duration is
/// representable.
pub open spec fn timings_at(ticks_hz: int) -> Timings {
    Timings {
        t0h: Pulse { level: PinLevel::High, ticks: nearest_ticks(ticks_hz, 350) as u16 },
        t0l: Pulse { level: PinLevel::Low, ticks: nearest_ticks(ticks_hz, 800) as u16 },
        t1h: Pulse { level: PinLevel::High, ticks: nearest_ticks(ticks_hz, 700) as u16 },
        t1l: Pulse { level: PinLevel::Low, ticks: nearest_ticks(ticks_hz, 600) as u16 },
        rst: Pulse { level: PinLevel::Low, ticks: nearest_ticks(ticks_hz, 50_000) as u16 },
    }
}

/// Whether all five protocol durations are representable at `ticks_hz`.
pub open spec fn clock_supported(ticks_hz: int) -> bool {
    &&& representable(ticks_hz, 350)
    &&& representable(ticks_hz, 800)
    &&& representable(ticks_hz, 700)
    &&& representable(ticks_hz, 600)
    &&& representable(ticks_hz, 50_000)
}

/// A longer duration never needs fewer ticks.
pub proof fn lemma_nearest_ticks_monotonic(ticks_hz: int, shorter: int, longer: int)
    requires
        0 <= ticks_hz,
        0 <= shorter <= longer,
    ensures
        0 <= nearest_ticks(ticks_hz, shorter) <= nearest_ticks(ticks_hz, longer),
{
    assert(0 <= shorter * ticks_hz <= longer * ticks_hz) by (nonlinear_arith)
        requires
            0 <= ticks_hz,
            0 <= shorter <= longer,
    ;
}

/// The reset gap is the longest of the five durations, so it alone decides
/// whether a counter frequency is supported.
pub proof fn lemma_reset_decides_support(ticks_hz: int)
    requires
        0 <= ticks_hz,
    ensures
        clock_supported(ticks_hz) <==> representable(ticks_hz, 50_000),
{
    lemma_nearest_ticks_monotonic(ticks_hz, 350, 50_000);
    lemma_nearest_ticks_monotonic(ticks_hz, 800, 50_000);
    lemma_nearest_ticks_monotonic(ticks_hz, 700, 50_000);
    lemma_nearest_ticks_monotonic(ticks_hz, 600, 50_000);
}

/// Converts a duration to the nearest tick count.
///
/// Fails exactly when that count exceeds [`MAX_PULSE_TICKS`].
pub fn duration_to_ticks(ticks_hz: u32, nanos: u64) -> (res: Result<u16, TimingComputationError>)
    ensures
        res is Ok <==> representable(ticks_hz as int, nanos as int),
        res is Err ==> res == Err::<u16, TimingComputationError>(TimingComputationError),
        res matches Ok(ticks) ==> ticks == nearest_ticks(ticks_hz as int, nanos as int),
{
    let hz: u128 = ticks_hz as u128;
    let ns: u128 = nanos as u128;
    assert(0 <= ns * hz <= 0x1_0000_0000_0000_0000 * 0x1_0000_0000) by (nonlinear_arith)
        requires
            0 <= ns < 0x1_0000_0000_0000_0000,
            0 <= hz < 0x1_0000_0000,
    ;
    let product: u128 = ns * hz;
    let ticks: u128 = (2 * product + 1_000_000_000) / 2_000_000_000;
    if ticks > MAX_PULSE_TICKS as u128 {
        Err(TimingComputationError)
    } else {
        Ok(ticks as u16)
    }
}

impl Pulse {
    /// A pulse of `ticks` ticks at `level`.
    pub fn new(level: PinLevel, ticks: u16) -> (pulse: Self)
        ensures
            pulse == (Pulse { level, ticks }),
    {
        Pulse { level, ticks }
    }

    /// A pulse at `level` that lasts the tick count nearest to `nanos`.
    ///
    /// Fails exactly when the duration is not representable at `ticks_hz`.
    pub fn new_with_duration(ticks_hz: u32, level: PinLevel, nanos: u64) -> (res: Result<
        Self,
        TimingComputationError,
    >)
        ensures
            res is Ok <==> representable(ticks_hz as int, nanos as int),
            res is Err ==> res == Err::<Pulse, TimingComputationError>(TimingComputationError),
            res matches Ok(pulse) ==> pulse == (Pulse {
                level,
                ticks: nearest_ticks(ticks_hz as int, nanos as int) as u16,
            }),
    {
        match duration_to_ticks(ticks_hz, nanos) {
            Ok(ticks) => Ok(Pulse { level, ticks }),
            Err(e) => Err(e),
        }
    }
}

impl Timings {
    /// Derives the timing set from the transmitter's counter frequency.
    ///
    /// Fails exactly when one of the five durations is not representable;
    /// otherwise the result is [`timings_at`] of the frequency.
    pub fn from_clock(ticks_hz: u32) -> (res: Result<Self, TimingComputationError>)
        ensures
            res is Ok <==> clock_supported(ticks_hz as int),
            res is Err ==> res == Err::<Timings, TimingComputationError>(TimingComputationError),
            res matches Ok(timings) ==> timings == timings_at(ticks_hz as int),
    {
        let t0h = match Pulse::new_with_duration(ticks_hz, PinLevel::High, T0H_NANOS) {
            Ok(p) => p,
            Err(e) => {
                return Err(e);
            },
        };
        let t0l = match Pulse::new_with_duration(ticks_hz, PinLevel::Low, T0L_NANOS) {
            Ok(p) => p,
            Err(e) => {
                return Err(e);
            },
        };
        let t1h = match Pulse::new_with_duration(ticks_hz, PinLevel::High, T1H_NANOS) {
            Ok(p) => p,
            Err(e) => {
                return Err(e);
            },
        };
        let t1l = match Pulse::new_with_duration(ticks_hz, PinLevel::Low, T1L_NANOS) {
            Ok(p) => p,
            Err(e) => {
                return Err(e);
            },
        };
        let rst = match Pulse::new_with_duration(ticks_hz, PinLevel::Low, RESET_NANOS) {
            Ok(p) => p,
            Err(e) => {
                return Err(e);
            },
        };
        Ok(Timings { t0h, t0l, t1h, t1l, rst })
    }
}

} // verus!
