//! The WebSocket session: what to do with each frame of one connection.
//!
//! A session is `Opening` until the transport reports it open, then
//! `Established`, then `Closed` for good. While it is established every frame
//! is judged on its own. The session does no I/O: it is told what arrived
//! and answers with what to read and what to send.

use crate::channel::{CommandSlot, SlotModel};
use crate::color::Rgb;
use crate::validator::{is_verdict, verdict, ValidationError, Validator};
use vstd::prelude::*;

verus! {

/// Where a connection stands.
#[derive(Clone, Copy, Debug, PartialEq, Eq, Structural)]
pub enum SessionState {
    Opening,
    Established,
    Closed,
}

/// The kind tag of an inbound frame.
#[derive(Clone, Copy, Debug, PartialEq, Eq, Structural)]
pub enum FrameKind {
    Text,
    Binary,
    Ping,
    Pong,
    Close,
    /// The transport reports that the socket itself went away.
    SocketClose,
    /// A continuation of a fragmented message.
    Continue,
}

/// The messages that the server sends as text.
#[derive(Clone, Copy, Debug, PartialEq, Eq, Structural)]
pub enum Notice {
    /// `{"status":"ready"}`
    Ready,
    /// `{"status":"ok"}`
    Accepted,
    /// `{"error":"binary_not_supported"}`
    BinaryNotSupported,
    /// `{"error":"payload_too_large"}`
    PayloadTooLarge,
    /// `{"error":"invalid_utf8"}`
    InvalidUtf8,
    /// `{"error":"invalid_payload"}`
    InvalidPayload,
    /// `{"error":"pixel_queue_unavailable"}`
    PixelQueueUnavailable,
}

/// One frame for the transport to send.
#[derive(Clone, Copy, Debug, PartialEq, Eq, Structural)]
pub enum Outbound {
    Text(Notice),
    Pong,
    Close,
}

/// What the transport does with the bytes of the frame at hand.
#[derive(Clone, Copy, Debug, PartialEq, Eq, Structural)]
pub enum Intake {
    /// Nothing is read.
    Skip,
    /// This many bytes are read and thrown away, to keep the framing in
    /// step.
    Drain(usize),
    /// This many bytes are read and handed to [`Session::on_text`].
    Read(usize),
}

/// The answer to a frame header: what to read, then what to send, in order.
#[derive(Debug, PartialEq, Eq)]
pub struct Step {
    pub intake: Intake,
    pub replies: Vec<Outbound>,
}

/// The mathematical content of a [`Step`].
pub struct StepModel {
    pub intake: Intake,
    pub replies: Seq<Outbound>,
}

impl View for Step {
    type V = StepModel;

    open spec fn view(&self) -> StepModel {
        StepModel { intake: self.intake, replies: self.replies@ }
    }
}

/// The mathematical content of a [`Session`].
pub struct SessionModel {
    pub state: SessionState,
    pub budget: nat,
}

/// Length of the text in a text frame whose transport length is `raw_len`:
/// the transport counts one terminator byte after the text.
pub open spec fn text_len(raw_len: nat) -> nat {
    if raw_len == 0 {
        0
    } else {
        (raw_len - 1) as nat
    }
}

/// The answer that sends nothing and reads nothing.
pub open spec fn no_step() -> StepModel {
    StepModel { intake: Intake::Skip, replies: Seq::empty() }
}

/// State and answer after a frame header arrived in `state`.
pub open spec fn after_frame(state: SessionState, kind: FrameKind, raw_len: nat, budget: nat) -> (
    SessionState,
    StepModel,
) {
    if state != SessionState::Established {
        (state, no_step())
    } else {
        match kind {
            FrameKind::Ping => (
                SessionState::Established,
                StepModel { intake: Intake::Skip, replies: seq![Outbound::Pong] },
            ),
            FrameKind::Pong | FrameKind::Close | FrameKind::SocketClose => (
                SessionState::Closed,
                no_step(),
            ),
            FrameKind::Continue => (SessionState::Established, no_step()),
            FrameKind::Binary => (
                SessionState::Established,
                StepModel {
                    intake: if raw_len > 0 {
                        Intake::Drain(raw_len as usize)
                    } else {
                        Intake::Skip
                    },
                    replies: seq![Outbound::Text(Notice::BinaryNotSupported)],
                },
            ),
            FrameKind::Text => if raw_len == 0 {
                (SessionState::Established, no_step())
            } else if text_len(raw_len) > budget {
                (
                    SessionState::Closed,
                    StepModel {
                        intake: Intake::Drain(raw_len as usize),
                        replies: seq![Outbound::Text(Notice::PayloadTooLarge), Outbound::Close],
                    },
                )
            } else {
                (
                    SessionState::Established,
                    StepModel { intake: Intake::Read(raw_len as usize), replies: Seq::empty() },
                )
            },
        }
    }
}

/// State, replies and slot after the validator's verdict on a text frame
/// was settled in an established session.
pub open spec fn after_verdict(outcome: Result<Seq<Rgb>, ValidationError>, slot: SlotModel) -> (
    SessionState,
    Seq<Outbound>,
    SlotModel,
) {
    match outcome {
        Ok(pixels) => if slot.accepts() {
            (
                SessionState::Established,
                seq![Outbound::Text(Notice::Accepted)],
                slot.after_send(pixels),
            )
        } else {
            (
                SessionState::Closed,
                seq![Outbound::Text(Notice::PixelQueueUnavailable), Outbound::Close],
                slot,
            )
        },
        Err(ValidationError::PayloadTooLarge) => (
            SessionState::Closed,
            seq![Outbound::Text(Notice::PayloadTooLarge), Outbound::Close],
            slot,
        ),
        Err(ValidationError::InvalidEncoding) => (
            SessionState::Established,
            seq![Outbound::Text(Notice::InvalidUtf8)],
            slot,
        ),
        Err(ValidationError::MalformedPayload) => (
            SessionState::Established,
            seq![Outbound::Text(Notice::InvalidPayload)],
            slot,
        ),
    }
}

/// State, replies and slot after the bytes of a text frame arrived in
/// `state`. The last byte is the transport's terminator and no part of the
/// text.
pub open spec fn after_text(state: SessionState, raw: Seq<u8>, budget: nat, slot: SlotModel) -> (
    SessionState,
    Seq<Outbound>,
    SlotModel,
) {
    if state != SessionState::Established || raw.len() == 0 {
        (state, Seq::empty(), slot)
    } else {
        after_verdict(verdict(raw.drop_last(), budget), slot)
    }
}

/// A ping is answered by exactly one pong; nothing is read, so nothing
/// reaches the validator, and the session stays open.
pub proof fn lemma_ping_yields_one_pong(raw_len: nat, budget: nat)
    ensures
        after_frame(SessionState::Established, FrameKind::Ping, raw_len, budget) == (
            SessionState::Established,
            StepModel { intake: Intake::Skip, replies: seq![Outbound::Pong] },
        ),
{
}

/// A binary frame is answered by the `binary_not_supported` notice alone;
/// its bytes are drained, never read, and the session stays open.
pub proof fn lemma_binary_is_refused_and_stays_open(raw_len: nat, budget: nat)
    ensures
        after_frame(SessionState::Established, FrameKind::Binary, raw_len, budget).0
            == SessionState::Established,
        after_frame(SessionState::Established, FrameKind::Binary, raw_len, budget).1.replies
            == seq![Outbound::Text(Notice::BinaryNotSupported)],
        !(after_frame(SessionState::Established, FrameKind::Binary, raw_len, budget).1.intake
            is Read),
{
}

/// A text frame over the budget is drained, answered by `payload_too_large`
/// and then a close frame, and the session is closed.
pub proof fn lemma_oversized_text_closes(raw_len: nat, budget: nat)
    requires
        text_len(raw_len) > budget,
    ensures
        after_frame(SessionState::Established, FrameKind::Text, raw_len, budget) == (
            SessionState::Closed,
            StepModel {
                intake: Intake::Drain(raw_len as usize),
                replies: seq![Outbound::Text(Notice::PayloadTooLarge), Outbound::Close],
            },
        ),
{
}

/// Only a text frame within the budget has its bytes read.
pub proof fn lemma_only_fitting_text_is_read(
    state: SessionState,
    kind: FrameKind,
    raw_len: nat,
    budget: nat,
)
    ensures
        after_frame(state, kind, raw_len, budget).1.intake is Read <==> {
            &&& state == SessionState::Established
            &&& kind == FrameKind::Text
            &&& 0 < raw_len
            &&& text_len(raw_len) <= budget
        },
{
}

/// A closed session stays closed and answers nothing, whatever arrives.
pub proof fn lemma_closed_is_terminal(
    kind: FrameKind,
    raw_len: nat,
    raw: Seq<u8>,
    budget: nat,
    slot: SlotModel,
)
    ensures
        after_frame(SessionState::Closed, kind, raw_len, budget) == (
            SessionState::Closed,
            no_step(),
        ),
        after_text(SessionState::Closed, raw, budget, slot) == (
            SessionState::Closed,
            Seq::<Outbound>::empty(),
            slot,
        ),
{
}

/// A validation failure other than the size leaves the session open and the
/// slot untouched: the client may try again.
pub proof fn lemma_bad_payload_keeps_session(error: ValidationError, slot: SlotModel)
    requires
        error != ValidationError::PayloadTooLarge,
    ensures
        after_verdict(Err(error), slot).0 == SessionState::Established,
        after_verdict(Err(error), slot).2 == slot,
{
}

/// Forwarding to a channel without a consumer is answered by
/// `pixel_queue_unavailable` and closes the session.
pub proof fn lemma_dead_consumer_closes(pixels: Seq<Rgb>, slot: SlotModel)
    requires
        !slot.consumer_alive,
    ensures
        after_verdict(Ok(pixels), slot) == (
            SessionState::Closed,
            seq![Outbound::Text(Notice::PixelQueueUnavailable), Outbound::Close],
            slot,
        ),
{
}

impl Notice {
    /// The text of the notice as it goes on the wire.
    pub open spec fn wire_text(self) -> Seq<char> {
        match self {
            Notice::Ready => "{\"status\":\"ready\"}"@,
            Notice::Accepted => "{\"status\":\"ok\"}"@,
            Notice::BinaryNotSupported => "{\"error\":\"binary_not_supported\"}"@,
            Notice::PayloadTooLarge => "{\"error\":\"payload_too_large\"}"@,
            Notice::InvalidUtf8 => "{\"error\":\"invalid_utf8\"}"@,
            Notice::InvalidPayload => "{\"error\":\"invalid_payload\"}"@,
            Notice::PixelQueueUnavailable => "{\"error\":\"pixel_queue_unavailable\"}"@,
        }
    }

    /// The text of the notice as it goes on the wire.
    pub fn text(&self) -> (text: &'static str)
        ensures
            text@ == self.wire_text(),
    {
        match self {
            Notice::Ready => "{\"status\":\"ready\"}",
            Notice::Accepted => "{\"status\":\"ok\"}",
            Notice::BinaryNotSupported => "{\"error\":\"binary_not_supported\"}",
            Notice::PayloadTooLarge => "{\"error\":\"payload_too_large\"}",
            Notice::InvalidUtf8 => "{\"error\":\"invalid_utf8\"}",
            Notice::InvalidPayload => "{\"error\":\"invalid_payload\"}",
            Notice::PixelQueueUnavailable => "{\"error\":\"pixel_queue_unavailable\"}",
        }
    }
}

/// The state of one WebSocket connection.
#[derive(Debug)]
pub struct Session {
    state: SessionState,
    validator: Validator,
}

impl View for Session {
    type V = SessionModel;

    closed spec fn view(&self) -> SessionModel {
        SessionModel { state: self.state, budget: self.validator.budget as nat }
    }
}

impl Session {
    /// A session that waits for the transport to report it open.
    pub fn new(validator: Validator) -> (session: Self)
        ensures
            session@ == (SessionModel {
                state: SessionState::Opening,
                budget: validator.budget as nat,
            }),
    {
        Session { state: SessionState::Opening, validator }
    }

    /// Where the connection stands.
    pub fn state(&self) -> (state: SessionState)
        ensures
            state == self@.state,
    {
        self.state
    }

    /// The transport reports the connection open.
    ///
    /// An opening session becomes established and greets the client with
    /// the `ready` notice. In any other state nothing happens.
    pub fn on_open(&mut self) -> (replies: Vec<Outbound>)
        ensures
            final(self)@.budget == old(self)@.budget,
            old(self)@.state == SessionState::Opening ==> {
                &&& final(self)@.state == SessionState::Established
                &&& replies@ == seq![Outbound::Text(Notice::Ready)]
            },
            old(self)@.state != SessionState::Opening ==> {
                &&& final(self)@ == old(self)@
                &&& replies@ == Seq::<Outbound>::empty()
            },
    {
        let mut replies: Vec<Outbound> = Vec::new();
        if self.state == SessionState::Opening {
            self.state = SessionState::Established;
            replies.push(Outbound::Text(Notice::Ready));
        }
        replies
    }

    /// The transport reports the connection closed. The session is closed,
    /// whatever its state was.
    pub fn on_transport_closed(&mut self)
        ensures
            final(self)@ == (SessionModel { state: SessionState::Closed, ..old(self)@ }),
    {
        self.state = SessionState::Closed;
    }

    /// The header of a frame arrived: its kind and the length that the
    /// transport reports for it.
    ///
    /// The answer and the next state are those of [`after_frame`].
    pub fn on_frame(&mut self, kind: FrameKind, raw_len: usize) -> (step: Step)
        ensures
            final(self)@.budget == old(self)@.budget,
            (final(self)@.state, step@) == after_frame(
                old(self)@.state,
                kind,
                raw_len as nat,
                old(self)@.budget,
            ),
    {
        let mut replies: Vec<Outbound> = Vec::new();
        let mut intake = Intake::Skip;
        if self.state == SessionState::Established {
            match kind {
                FrameKind::Ping => {
                    replies.push(Outbound::Pong);
                },
                FrameKind::Pong | FrameKind::Close | FrameKind::SocketClose => {
                    self.state = SessionState::Closed;
                },
                FrameKind::Continue => {},
                FrameKind::Binary => {
                    if raw_len > 0 {
                        intake = Intake::Drain(raw_len);
                    }
                    replies.push(Outbound::Text(Notice::BinaryNotSupported));
                },
                FrameKind::Text => {
                    if raw_len > 0 {
                        if raw_len - 1 > self.validator.budget {
                            intake = Intake::Drain(raw_len);
                            replies.push(Outbound::Text(Notice::PayloadTooLarge));
                            replies.push(Outbound::Close);
                            self.state = SessionState::Closed;
                        } else {
                            intake = Intake::Read(raw_len);
                        }
                    }
                },
            }
        }
        let step = Step { intake, replies };
        assert(step@.replies =~= after_frame(
            old(self)@.state,
            kind,
            raw_len as nat,
            old(self)@.budget,
        ).1.replies);
        step
    }

    /// Settles the validator's verdict on a text frame: forwards a valid
    /// command to the channel and picks the replies.
    ///
    /// In an established session state, replies and slot are those of
    /// [`after_verdict`]; in any other state nothing happens.
    pub fn settle(
        &mut self,
        outcome: Result<Vec<Rgb>, ValidationError>,
        slot: &mut CommandSlot,
    ) -> (replies: Vec<Outbound>)
        ensures
            final(self)@.budget == old(self)@.budget,
            old(self)@.state != SessionState::Established ==> {
                &&& final(self)@ == old(self)@
                &&& final(slot)@ == old(slot)@
                &&& replies@ == Seq::<Outbound>::empty()
            },
            old(self)@.state == SessionState::Established ==> (
                final(self)@.state,
                replies@,
                final(slot)@,
            ) == after_verdict(
                match outcome {
                    Ok(pixels) => Ok(pixels@),
                    Err(e) => Err(e),
                },
                old(slot)@,
            ),
    {
        let mut replies: Vec<Outbound> = Vec::new();
        if self.state != SessionState::Established {
            return replies;
        }
        match outcome {
            Ok(pixels) => {
                match slot.send(pixels) {
                    Ok(()) => {
                        replies.push(Outbound::Text(Notice::Accepted));
                    },
                    Err(_) => {
                        replies.push(Outbound::Text(Notice::PixelQueueUnavailable));
                        replies.push(Outbound::Close);
                        self.state = SessionState::Closed;
                    },
                }
            },
            Err(ValidationError::PayloadTooLarge) => {
                replies.push(Outbound::Text(Notice::PayloadTooLarge));
                replies.push(Outbound::Close);
                self.state = SessionState::Closed;
            },
            Err(ValidationError::InvalidEncoding) => {
                replies.push(Outbound::Text(Notice::InvalidUtf8));
            },
            Err(ValidationError::MalformedPayload) => {
                replies.push(Outbound::Text(Notice::InvalidPayload));
            },
        }
        assert(replies@ =~= after_verdict(
            match outcome {
                Ok(pixels) => Ok(pixels@),
                Err(e) => Err(e),
            },
            old(slot)@,
        ).1);
        replies
    }

    /// The bytes of a text frame arrived, terminator included.
    ///
    /// The text is validated and the verdict settled: state, replies and
    /// slot are those of [`after_text`].
    pub fn on_text(&mut self, raw: &[u8], slot: &mut CommandSlot) -> (replies: Vec<Outbound>)
        ensures
            final(self)@.budget == old(self)@.budget,
            (final(self)@.state, replies@, final(slot)@) == after_text(
                old(self)@.state,
                raw@,
                old(self)@.budget,
                old(slot)@,
            ),
    {
        if self.state != SessionState::Established || raw.len() == 0 {
            return Vec::new();
        }
        let text = vstd::slice::slice_subrange(raw, 0, raw.len() - 1);
        assert(text@ =~= raw@.drop_last());
        let outcome = self.validator.validate(text);
        self.settle(outcome, slot)
    }
}

} // verus!
