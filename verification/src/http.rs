//! The HTTP surface: which reply each request gets.
//!
//! `GET /` answers with a liveness banner. `POST /params` takes a pixel
//! command as its body, through the same validator and the same channel as
//! the WebSocket surface. The transport reads and writes; this module
//! decides.

use crate::channel::{CommandSlot, SlotModel};
use crate::color::Rgb;
use crate::session::Notice;
use crate::validator::{verdict, ValidationError, Validator};
use vstd::prelude::*;

verus! {

/// Path of the liveness banner.
pub const LIVENESS_PATH: &'static str = "/";

/// Path that takes pixel commands.
pub const PARAMS_PATH: &'static str = "/params";

/// Path of the WebSocket upgrade.
pub const WEBSOCKET_PATH: &'static str = "/ws";

/// Status of a request that was served.
pub const STATUS_OK: u16 = 200;

/// Status of a body that is not valid UTF-8 or not a pixel command.
pub const STATUS_BAD_REQUEST: u16 = 400;

/// Status of a body over the byte budget.
pub const STATUS_PAYLOAD_TOO_LARGE: u16 = 413;

/// Status of a command that cannot be shown because the LED side is gone.
pub const STATUS_SERVICE_UNAVAILABLE: u16 = 503;

/// What a reply carries.
#[derive(Clone, Copy, Debug, PartialEq, Eq, Structural)]
pub enum HttpBody {
    /// The plain-text liveness banner.
    Banner,
    /// One of the JSON notices.
    Notice(Notice),
}

/// A status code and a body.
#[derive(Clone, Copy, Debug, PartialEq, Eq, Structural)]
pub struct HttpReply {
    pub status: u16,
    pub body: HttpBody,
}

/// The reply to a pixel command and the slot after it, given the validator's
/// verdict.
pub open spec fn params_outcome(outcome: Result<Seq<Rgb>, ValidationError>, slot: SlotModel) -> (
    HttpReply,
    SlotModel,
) {
    match outcome {
        Ok(pixels) => if slot.accepts() {
            (
                HttpReply { status: 200, body: HttpBody::Notice(Notice::Accepted) },
                slot.after_send(pixels),
            )
        } else {
            (
                HttpReply { status: 503, body: HttpBody::Notice(Notice::PixelQueueUnavailable) },
                slot,
            )
        },
        Err(ValidationError::PayloadTooLarge) => (
            HttpReply { status: 413, body: HttpBody::Notice(Notice::PayloadTooLarge) },
            slot,
        ),
        Err(ValidationError::InvalidEncoding) => (
            HttpReply { status: 400, body: HttpBody::Notice(Notice::InvalidUtf8) },
            slot,
        ),
        Err(ValidationError::MalformedPayload) => (
            HttpReply { status: 400, body: HttpBody::Notice(Notice::InvalidPayload) },
            slot,
        ),
    }
}

/// A request changes the slot only when it is answered with 200, and then
/// the command it carried is the pending one.
pub proof fn lemma_only_success_reaches_slot(
    outcome: Result<Seq<Rgb>, ValidationError>,
    slot: SlotModel,
)
    ensures
        params_outcome(outcome, slot).0.status != 200 ==> params_outcome(outcome, slot).1 == slot,
        params_outcome(outcome, slot).0.status == 200 ==> outcome is Ok && params_outcome(
            outcome,
            slot,
        ).1.pending == Some(outcome->Ok_0),
{
}

impl HttpBody {
    /// The text of the body as it goes on the wire.
    pub open spec fn wire_text(self) -> Seq<char> {
        match self {
            HttpBody::Banner => "Nightstand online"@,
            HttpBody::Notice(notice) => notice.wire_text(),
        }
    }

    /// The text of the body as it goes on the wire.
    pub fn text(&self) -> (text: &'static str)
        ensures
            text@ == self.wire_text(),
    {
        match self {
            HttpBody::Banner => "Nightstand online",
            HttpBody::Notice(notice) => notice.text(),
        }
    }
}

/// The reply to `GET /`: 200 and the banner.
pub fn liveness() -> (reply: HttpReply)
    ensures
        reply == (HttpReply { status: 200, body: HttpBody::Banner }),
{
    HttpReply { status: STATUS_OK, body: HttpBody::Banner }
}

/// Judges the length that a `POST /params` declares, before its body is
/// read.
///
/// A length over the budget is answered with 413 at once; otherwise the body
/// is to be read.
pub fn refuse_declared(validator: &Validator, declared: usize) -> (reply: Option<HttpReply>)
    ensures
        reply is Some <==> declared > validator.budget,
        reply is Some ==> reply == Some(
            HttpReply { status: 413, body: HttpBody::Notice(Notice::PayloadTooLarge) },
        ),
{
    match validator.check_declared_length(declared) {
        Ok(()) => None,
        Err(_) => Some(
            HttpReply {
                status: STATUS_PAYLOAD_TOO_LARGE,
                body: HttpBody::Notice(Notice::PayloadTooLarge),
            },
        ),
    }
}

/// Settles the validator's verdict on the body of a `POST /params`: forwards
/// a valid command to the channel and picks the reply.
pub fn settle_params(outcome: Result<Vec<Rgb>, ValidationError>, slot: &mut CommandSlot) -> (reply:
    HttpReply)
    ensures
        (reply, final(slot)@) == params_outcome(
            match outcome {
                Ok(pixels) => Ok(pixels@),
                Err(e) => Err(e),
            },
            old(slot)@,
        ),
{
    match outcome {
        Ok(pixels) => match slot.send(pixels) {
            Ok(()) => HttpReply { status: STATUS_OK, body: HttpBody::Notice(Notice::Accepted) },
            Err(_) => HttpReply {
                status: STATUS_SERVICE_UNAVAILABLE,
                body: HttpBody::Notice(Notice::PixelQueueUnavailable),
            },
        },
        Err(ValidationError::PayloadTooLarge) => HttpReply {
            status: STATUS_PAYLOAD_TOO_LARGE,
            body: HttpBody::Notice(Notice::PayloadTooLarge),
        },
        Err(ValidationError::InvalidEncoding) => HttpReply {
            status: STATUS_BAD_REQUEST,
            body: HttpBody::Notice(Notice::InvalidUtf8),
        },
        Err(ValidationError::MalformedPayload) => HttpReply {
            status: STATUS_BAD_REQUEST,
            body: HttpBody::Notice(Notice::InvalidPayload),
        },
    }
}

/// Serves one `POST /params` whose body has been read.
///
/// The body is validated and the verdict settled: reply and slot are those
/// of [`params_outcome`] for the [`verdict`] on the body.
pub fn handle_params(validator: &Validator, body: &[u8], slot: &mut CommandSlot) -> (reply:
    HttpReply)
    ensures
        (reply, final(slot)@) == params_outcome(
            verdict(body@, validator.budget as nat),
            old(slot)@,
        ),
{
    let outcome = validator.validate(body);
    settle_params(outcome, slot)
}

} // verus!
