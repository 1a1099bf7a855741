//! The command channel: a single slot between the network side and the LED
//! side.
//!
//! Producers put the latest wanted strip state into the slot; the one
//! consumer takes it out. A command that arrives while another is still
//! pending replaces it, so the slot never grows and a producer never waits.
//! The slot itself does no locking and no blocking: whoever shares it between
//! threads guards it, and waits outside when [`CommandSlot::receive`] finds
//! it empty.

use crate::color::Rgb;
use vstd::prelude::*;

verus! {

/// The consumer of the channel is gone; nothing that is sent can be shown.
#[derive(Clone, Copy, Debug, PartialEq, Eq, Structural)]
pub struct ChannelClosed;

/// What the consumer finds when it looks into the slot.
#[derive(Debug, PartialEq, Eq)]
pub enum Received {
    /// The pending command, which is now taken out of the slot.
    Command(Vec<Rgb>),
    /// Nothing is pending, but a producer may still send.
    Empty,
    /// Nothing is pending and no producer is left to send.
    Closed,
}

/// The mathematical content of a slot.
pub struct SlotModel {
    /// The command that waits for the consumer, if any.
    pub pending: Option<Seq<Rgb>>,
    /// Whether the consumer side still exists.
    pub consumer_alive: bool,
    /// Whether the producer side still exists.
    pub producers_alive: bool,
}

/// The mathematical content of what a `receive` returned.
pub enum ReceivedModel {
    Command(Seq<Rgb>),
    Empty,
    Closed,
}

impl View for Received {
    type V = ReceivedModel;

    open spec fn view(&self) -> ReceivedModel {
        match self {
            Received::Command(pixels) => ReceivedModel::Command(pixels@),
            Received::Empty => ReceivedModel::Empty,
            Received::Closed => ReceivedModel::Closed,
        }
    }
}

impl SlotModel {
    /// A fresh slot: nothing pending, both sides alive.
    pub open spec fn fresh() -> SlotModel {
        SlotModel { pending: None, consumer_alive: true, producers_alive: true }
    }

    /// Whether a `send` into this slot succeeds.
    pub open spec fn accepts(self) -> bool {
        self.consumer_alive
    }

    /// The slot after `send(command)`: the command supersedes whatever was
    /// pending; without a consumer nothing changes.
    pub open spec fn after_send(self, command: Seq<Rgb>) -> SlotModel {
        if self.consumer_alive {
            SlotModel { pending: Some(command), ..self }
        } else {
            self
        }
    }

    /// What `receive` hands to the consumer.
    pub open spec fn delivered(self) -> ReceivedModel {
        match self.pending {
            Some(command) => ReceivedModel::Command(command),
            None => if self.producers_alive {
                ReceivedModel::Empty
            } else {
                ReceivedModel::Closed
            },
        }
    }

    /// The slot after `receive`: empty.
    pub open spec fn after_receive(self) -> SlotModel {
        SlotModel { pending: None, ..self }
    }

    /// The slot after the consumer was torn down: what was pending is dropped.
    pub open spec fn after_consumer_close(self) -> SlotModel {
        SlotModel { pending: None, consumer_alive: false, ..self }
    }

    /// The slot after the last producer went away: what is pending stays.
    pub open spec fn after_producers_close(self) -> SlotModel {
        SlotModel { producers_alive: false, ..self }
    }
}

/// Of two commands sent before any receive, the consumer sees the second and
/// never the first: the next receive delivers the second, and the one after
/// that finds no command.
pub proof fn lemma_latest_command_wins(slot: SlotModel, first: Seq<Rgb>, second: Seq<Rgb>)
    requires
        slot.consumer_alive,
    ensures
        slot.after_send(first).accepts(),
        slot.after_send(first).after_send(second).delivered() == ReceivedModel::Command(second),
        !(slot.after_send(first).after_send(second).after_receive().delivered()
            is Command),
        slot.after_send(first).after_send(second) == slot.after_send(second),
{
}

/// However many commands are sent, at most one is pending: the slot cannot
/// grow.
pub proof fn lemma_slot_holds_one(slot: SlotModel, command: Seq<Rgb>)
    ensures
        slot.after_send(command).after_receive().pending is None,
        slot.after_send(command).after_receive().delivered() !is Command,
{
}

/// Once the consumer is torn down every send fails and leaves nothing
/// pending.
pub proof fn lemma_closed_consumer_refuses(slot: SlotModel, command: Seq<Rgb>)
    ensures
        !slot.after_consumer_close().accepts(),
        slot.after_consumer_close().after_send(command) == slot.after_consumer_close(),
        slot.after_consumer_close().pending is None,
{
}

/// A command that was sent before the producers went away is still
/// delivered; only then is the channel reported closed.
pub proof fn lemma_pending_survives_producers(slot: SlotModel, command: Seq<Rgb>)
    requires
        slot.consumer_alive,
    ensures
        slot.after_send(command).after_producers_close().delivered() == ReceivedModel::Command(
            command,
        ),
        slot.after_send(command).after_producers_close().after_receive().delivered()
            == ReceivedModel::Closed,
{
}

/// The single-slot, latest-wins hand-off.
#[derive(Debug)]
pub struct CommandSlot {
    pending: Option<Vec<Rgb>>,
    consumer_alive: bool,
    producers_alive: bool,
}

impl View for CommandSlot {
    type V = SlotModel;

    closed spec fn view(&self) -> SlotModel {
        SlotModel {
            pending: match self.pending {
                Some(command) => Some(command@),
                None => None,
            },
            consumer_alive: self.consumer_alive,
            producers_alive: self.producers_alive,
        }
    }
}

impl CommandSlot {
    /// A fresh slot: nothing pending, both sides alive.
    pub fn new() -> (slot: Self)
        ensures
            slot@ == SlotModel::fresh(),
    {
        CommandSlot { pending: None, consumer_alive: true, producers_alive: true }
    }

    /// Puts `command` into the slot, in place of any command not yet taken.
    ///
    /// Fails exactly when the consumer has been torn down; the slot is then
    /// unchanged.
    pub fn send(&mut self, command: Vec<Rgb>) -> (res: Result<(), ChannelClosed>)
        ensures
            res is Ok <==> old(self)@.accepts(),
            res is Err ==> res == Err::<(), ChannelClosed>(ChannelClosed),
            final(self)@ == old(self)@.after_send(command@),
    {
        if self.consumer_alive {
            self.pending = Some(command);
            Ok(())
        } else {
            Err(ChannelClosed)
        }
    }

    /// Takes the pending command out of the slot, or says why there is none.
    pub fn receive(&mut self) -> (got: Received)
        ensures
            got@ == old(self)@.delivered(),
            final(self)@ == old(self)@.after_receive(),
    {
        match self.pending.take() {
            Some(command) => Received::Command(command),
            None => if self.producers_alive {
                Received::Empty
            } else {
                Received::Closed
            },
        }
    }

    /// Tears the consumer side down and drops what was pending.
    pub fn close_consumer(&mut self)
        ensures
            final(self)@ == old(self)@.after_consumer_close(),
    {
        self.pending = None;
        self.consumer_alive = false;
    }

    /// Records that no producer is left.
    pub fn close_producers(&mut self)
        ensures
            final(self)@ == old(self)@.after_producers_close(),
    {
        self.producers_alive = false;
    }

    /// Whether a command waits for the consumer.
    pub fn has_pending(&self) -> (pending: bool)
        ensures
            pending <==> self@.pending is Some,
    {
        self.pending.is_some()
    }

    /// Whether the consumer side still exists.
    pub fn consumer_alive(&self) -> (alive: bool)
        ensures
            alive == self@.consumer_alive,
    {
        self.consumer_alive
    }

    /// Whether the producer side still exists.
    pub fn producers_alive(&self) -> (alive: bool)
        ensures
            alive == self@.producers_alive,
    {
        self.producers_alive
    }
}

} // verus!
