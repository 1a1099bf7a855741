//! The LED side: the strip driver and the drive loop.
//!
//! The driver turns pixels into the pulse train of one frame. The drive loop
//! decides, each time it is polled, whether to wait, to transmit, to pause or
//! to stop. Neither touches the hardware: the owner of the transmitter sends
//! the train, sleeps for the pause, and reports back.

use crate::channel::{ChannelClosed, CommandSlot, Received, ReceivedModel, SlotModel};
use crate::color::Rgb;
use crate::encoder::{encode, encoded};
use crate::frame::{kept, Frame};
use crate::timing::{clock_supported, timings_at, Pulse, TimingComputationError, Timings};
use vstd::prelude::*;

verus! {

/// Least time between the end of one transmission and the next receive, in
/// milliseconds.
pub const FRAME_INTERVAL_MS: u32 = 50;

/// The driver of one strip: its timing set and the frame it showed last.
#[derive(Debug)]
pub struct Ws2812 {
    pixels: Frame,
    timings: Timings,
}

/// The mathematical content of a [`Ws2812`].
pub struct StripModel {
    /// The pixels that were transmitted last.
    pub shown: Seq<Rgb>,
    /// The most pixels that one frame can hold.
    pub capacity: nat,
    /// The timing set.
    pub timings: Timings,
}

impl View for Ws2812 {
    type V = StripModel;

    closed spec fn view(&self) -> StripModel {
        StripModel {
            shown: self.pixels@,
            capacity: self.pixels.storage().len(),
            timings: self.timings,
        }
    }
}

impl Ws2812 {
    /// A driver for a transmitter whose counter runs at `ticks_hz`, with
    /// room for `capacity` pixels.
    ///
    /// Fails exactly when the counter frequency cannot represent the
    /// durations of the protocol.
    pub fn new(ticks_hz: u32, capacity: usize) -> (res: Result<Self, TimingComputationError>)
        ensures
            res is Ok <==> clock_supported(ticks_hz as int),
            res matches Err(e) ==> e == TimingComputationError,
            res matches Ok(strip) ==> strip@ == (StripModel {
                shown: Seq::empty(),
                capacity: capacity as nat,
                timings: timings_at(ticks_hz as int),
            }),
    {
        match Timings::from_clock(ticks_hz) {
            Ok(timings) => {
                let empty: Vec<Rgb> = Vec::new();
                let pixels = Frame::from(empty.as_slice(), capacity);
                Ok(Ws2812 { pixels, timings })
            },
            Err(e) => Err(e),
        }
    }

    /// The timing set of this driver.
    pub fn timings(&self) -> (timings: Timings)
        ensures
            timings == self@.timings,
    {
        self.timings
    }

    /// Loads `pixels` as the current frame and encodes it.
    ///
    /// The frame keeps as many pixels as it has room for; the train is the
    /// encoding of exactly those.
    pub fn transmit(&mut self, pixels: &[Rgb]) -> (train: Vec<Pulse>)
        ensures
            final(self)@ == (StripModel {
                shown: kept(pixels@, old(self)@.capacity),
                ..old(self)@
            }),
            train@ == encoded(old(self)@.timings, kept(pixels@, old(self)@.capacity)),
    {
        self.pixels.load(pixels);
        encode(&self.timings, self.pixels.as_slice())
    }
}

/// Whether the drive loop waits for a command or for its transmission to
/// end.
#[derive(Clone, Copy, Debug, PartialEq, Eq, Structural)]
pub enum DriveState {
    Idle,
    Transmitting,
}

/// What the owner of the transmitter does next.
#[derive(Debug, PartialEq, Eq)]
pub enum DriveAction {
    /// Nothing is pending: wait until a producer sends, then poll again.
    Wait,
    /// Send this pulse train, blocking, then report with
    /// [`DriveLoop::on_transmitted`].
    Transmit(Vec<Pulse>),
    /// Sleep this many milliseconds, then poll again.
    Pause(u32),
    /// The channel is closed for good: stop with this error.
    Halt(ChannelClosed),
}

/// The mathematical content of a [`DriveAction`].
pub enum DriveActionModel {
    Wait,
    Transmit(Seq<Pulse>),
    Pause(u32),
    Halt(ChannelClosed),
}

impl View for DriveAction {
    type V = DriveActionModel;

    open spec fn view(&self) -> DriveActionModel {
        match self {
            DriveAction::Wait => DriveActionModel::Wait,
            DriveAction::Transmit(train) => DriveActionModel::Transmit(train@),
            DriveAction::Pause(ms) => DriveActionModel::Pause(*ms),
            DriveAction::Halt(e) => DriveActionModel::Halt(*e),
        }
    }
}

/// The mathematical content of a [`DriveLoop`].
pub struct DriveModel {
    pub state: DriveState,
    pub strip: StripModel,
    /// Number of pixels of the all-black frame that stands for "off".
    pub strip_pixels: nat,
}

/// The black pixels that are shown for an empty command.
pub open spec fn all_off(strip_pixels: nat) -> Seq<Rgb> {
    Seq::new(strip_pixels, |i: int| Rgb::black())
}

/// The pixels that a command puts on the strip: its own, or all black when
/// it is empty.
pub open spec fn wanted(command: Seq<Rgb>, strip_pixels: nat) -> Seq<Rgb> {
    if command.len() == 0 {
        all_off(strip_pixels)
    } else {
        command
    }
}

/// The loop, the action and the slot after a poll.
pub open spec fn after_poll(drive: DriveModel, slot: SlotModel) -> (
    DriveModel,
    DriveActionModel,
    SlotModel,
) {
    match drive.state {
        DriveState::Transmitting => (drive, DriveActionModel::Wait, slot),
        DriveState::Idle => match slot.delivered() {
            ReceivedModel::Command(command) => {
                let shown = kept(wanted(command, drive.strip_pixels), drive.strip.capacity);
                (
                    DriveModel {
                        state: DriveState::Transmitting,
                        strip: StripModel { shown, ..drive.strip },
                        ..drive
                    },
                    DriveActionModel::Transmit(encoded(drive.strip.timings, shown)),
                    slot.after_receive(),
                )
            },
            ReceivedModel::Empty => (drive, DriveActionModel::Wait, slot.after_receive()),
            ReceivedModel::Closed => (
                drive,
                DriveActionModel::Halt(ChannelClosed),
                slot.after_receive(),
            ),
        },
    }
}

/// While a transmission is in flight a poll takes nothing out of the slot:
/// what is sent meanwhile waits for the next poll.
pub proof fn lemma_poll_in_flight_keeps_slot(drive: DriveModel, slot: SlotModel)
    requires
        drive.state == DriveState::Transmitting,
    ensures
        after_poll(drive, slot) == (drive, DriveActionModel::Wait, slot),
{
}

/// Of the commands sent since the last poll, the next poll transmits the
/// latest one.
pub proof fn lemma_poll_transmits_latest(
    drive: DriveModel,
    slot: SlotModel,
    earlier: Seq<Rgb>,
    latest: Seq<Rgb>,
)
    requires
        drive.state == DriveState::Idle,
        slot.consumer_alive,
    ensures
        after_poll(drive, slot.after_send(earlier).after_send(latest)).1
            == DriveActionModel::Transmit(
            encoded(
                drive.strip.timings,
                kept(wanted(latest, drive.strip_pixels), drive.strip.capacity),
            ),
        ),
{
}

/// An empty command shows black on every pixel of the strip that the frame
/// has room for.
pub proof fn lemma_empty_command_turns_off(drive: DriveModel, slot: SlotModel, i: int)
    requires
        drive.state == DriveState::Idle,
        slot.pending == Some(Seq::<Rgb>::empty()),
        0 <= i < drive.strip_pixels,
        i < drive.strip.capacity,
    ensures
        after_poll(drive, slot).0.strip.shown[i] == Rgb::black(),
        after_poll(drive, slot).0.strip.shown.len() == if drive.strip_pixels
            <= drive.strip.capacity {
            drive.strip_pixels
        } else {
            drive.strip.capacity
        },
{
}

/// The all-black frame that is shown for an empty command, built once.
#[derive(Debug)]
struct OffFrame {
    frame: Frame,
}

impl OffFrame {
    #[verifier::type_invariant]
    spec fn is_dark(self) -> bool {
        self.frame@ == all_off(self.frame@.len())
    }

    spec fn pixel_count(self) -> nat {
        self.frame@.len()
    }

    fn new(strip_pixels: usize) -> (off: Self)
        ensures
            off.pixel_count() == strip_pixels,
    {
        OffFrame { frame: Frame::dark(strip_pixels) }
    }

    fn as_slice(&self) -> (pixels: &[Rgb])
        ensures
            pixels@ == all_off(self.pixel_count()),
    {
        proof {
            use_type_invariant(self);
        }
        self.frame.as_slice()
    }
}

/// The consumer of the command channel.
#[derive(Debug)]
pub struct DriveLoop {
    state: DriveState,
    strip: Ws2812,
    off: OffFrame,
}

impl View for DriveLoop {
    type V = DriveModel;

    closed spec fn view(&self) -> DriveModel {
        DriveModel { state: self.state, strip: self.strip@, strip_pixels: self.off.pixel_count() }
    }
}

impl DriveLoop {
    /// An idle loop that drives `strip`, for a strip of `strip_pixels`
    /// pixels.
    pub fn new(strip: Ws2812, strip_pixels: usize) -> (drive: Self)
        ensures
            drive@ == (DriveModel {
                state: DriveState::Idle,
                strip: strip@,
                strip_pixels: strip_pixels as nat,
            }),
    {
        let off = OffFrame::new(strip_pixels);
        DriveLoop { state: DriveState::Idle, strip, off }
    }

    /// Whether the loop waits for a command or for its transmission to end.
    pub fn state(&self) -> (state: DriveState)
        ensures
            state == self@.state,
    {
        self.state
    }

    /// Looks into the slot and decides what to do.
    ///
    /// An idle loop takes the pending command, if any, and answers with its
    /// pulse train; an empty command stands for the all-black frame. Loop,
    /// action and slot are those of [`after_poll`].
    pub fn poll(&mut self, slot: &mut CommandSlot) -> (action: DriveAction)
        ensures
            (final(self)@, action@, final(slot)@) == after_poll(old(self)@, old(slot)@),
    {
        if self.state == DriveState::Transmitting {
            return DriveAction::Wait;
        }
        match slot.receive() {
            Received::Command(command) => {
                let train = if command.len() == 0 {
                    self.strip.transmit(self.off.as_slice())
                } else {
                    self.strip.transmit(command.as_slice())
                };
                self.state = DriveState::Transmitting;
                DriveAction::Transmit(train)
            },
            Received::Empty => DriveAction::Wait,
            Received::Closed => DriveAction::Halt(ChannelClosed),
        }
    }

    /// The transmission that the last poll asked for has ended.
    ///
    /// The loop is idle again and asks for the pause between frames. When no
    /// transmission was in flight nothing changes.
    pub fn on_transmitted(&mut self) -> (action: DriveAction)
        ensures
            final(self)@ == (DriveModel { state: DriveState::Idle, ..old(self)@ }),
            action@ == if old(self)@.state == DriveState::Transmitting {
                DriveActionModel::Pause(FRAME_INTERVAL_MS)
            } else {
                DriveActionModel::Wait
            },
    {
        if self.state == DriveState::Transmitting {
            self.state = DriveState::Idle;
            DriveAction::Pause(FRAME_INTERVAL_MS)
        } else {
            DriveAction::Wait
        }
    }
}

} // verus!
