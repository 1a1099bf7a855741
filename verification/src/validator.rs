//! The command validator: from the bytes of one inbound message to a pixel
//! command, or to the reason why it is refused.
//!
//! A message passes four gates in order: its size, its encoding, its JSON
//! shape, and the schema of a pixel (members `r`, `g` and `b`, each an
//! integer from 0 to 255). The validator neither sends nor stores anything.

use crate::color::Rgb;
use crate::json::{json_rows, parse_rows, row_model, rows_model, utf8_text, Member, MemberModel};
use vstd::prelude::*;
use vstd::string::StringSliceAdditionalSpecFns;
use vstd::utf8::{decode_utf8, encode_utf8_decode_utf8, valid_utf8};

verus! {

/// Why a message is refused.
#[derive(Clone, Copy, Debug, PartialEq, Eq, Structural)]
pub enum ValidationError {
    /// The message is longer than the byte budget.
    PayloadTooLarge,
    /// The message is not valid UTF-8.
    InvalidEncoding,
    /// The message is not a JSON array of pixel objects.
    MalformedPayload,
}

/// The byte budget of the network surfaces.
pub const MAX_PAYLOAD_LEN: usize = 512;

/// Name of the red member: the letter `r`.
pub const NAME_RED: u8 = 0x72;

/// Name of the green member: the letter `g`.
pub const NAME_GREEN: u8 = 0x67;

/// Name of the blue member: the letter `b`.
pub const NAME_BLUE: u8 = 0x62;

/// The value of the first member of `row` whose name is the single letter
/// `name`; `None` when no member has that name.
pub open spec fn find_value(row: Seq<MemberModel>, name: u8) -> Option<Option<u64>>
    decreases row.len(),
{
    if row.len() == 0 {
        None
    } else if row[0].key == seq![name] {
        Some(row[0].value)
    } else {
        find_value(row.drop_first(), name)
    }
}

/// The channel that `row` gives under `name`: present, an unsigned integer,
/// and at most 255.
pub open spec fn channel_of(row: Seq<MemberModel>, name: u8) -> Option<u8> {
    match find_value(row, name) {
        Some(Some(n)) => if n <= 255 {
            Some(n as u8)
        } else {
            None
        },
        _ => None,
    }
}

/// The pixel that one object denotes, if it denotes one.
pub open spec fn pixel_of_row(row: Seq<MemberModel>) -> Option<Rgb> {
    match (channel_of(row, NAME_RED), channel_of(row, NAME_GREEN), channel_of(row, NAME_BLUE)) {
        (Some(r), Some(g), Some(b)) => Some(Rgb { r, g, b }),
        _ => None,
    }
}

/// The pixel command that an array of objects denotes: one pixel per object,
/// in order, provided that every object denotes a pixel.
pub open spec fn pixels_of_rows(rows: Seq<Seq<MemberModel>>) -> Result<Seq<Rgb>, ValidationError> {
    if forall|i: int| 0 <= i < rows.len() ==> (#[trigger] pixel_of_row(rows[i])) is Some {
        Ok(Seq::new(rows.len(), |i: int| pixel_of_row(rows[i])->0))
    } else {
        Err(ValidationError::MalformedPayload)
    }
}

/// The pixel command that a text denotes.
pub open spec fn pixels_of_text(text: Seq<char>) -> Result<Seq<Rgb>, ValidationError> {
    match json_rows(text) {
        Some(rows) => pixels_of_rows(rows),
        None => Err(ValidationError::MalformedPayload),
    }
}

/// The verdict on a message body under a byte budget.
pub open spec fn verdict(body: Seq<u8>, budget: nat) -> Result<Seq<Rgb>, ValidationError> {
    if body.len() > budget {
        Err(ValidationError::PayloadTooLarge)
    } else if !valid_utf8(body) {
        Err(ValidationError::InvalidEncoding)
    } else {
        pixels_of_text(decode_utf8(body))
    }
}

/// Whether an exec result is the given verdict.
pub open spec fn is_verdict(
    res: Result<Vec<Rgb>, ValidationError>,
    expected: Result<Seq<Rgb>, ValidationError>,
) -> bool {
    match res {
        Ok(pixels) => expected == Ok::<Seq<Rgb>, ValidationError>(pixels@),
        Err(e) => expected == Err::<Seq<Rgb>, ValidationError>(e),
    }
}

/// An empty array denotes the empty command: the strip is to be turned off.
pub proof fn lemma_no_rows_no_pixels()
    ensures
        pixels_of_rows(Seq::empty()) == Ok::<Seq<Rgb>, ValidationError>(Seq::empty()),
{
    assert(Seq::new(0, |i: int| pixel_of_row(Seq::<Seq<MemberModel>>::empty()[i])->0)
        =~= Seq::<Rgb>::empty());
}

/// A command has exactly one pixel for each object of the array.
pub proof fn lemma_one_pixel_per_row(rows: Seq<Seq<MemberModel>>)
    ensures
        pixels_of_rows(rows) matches Ok(pixels) ==> pixels.len() == rows.len(),
{
}

/// A channel above 255 makes the whole message malformed.
pub proof fn lemma_out_of_range_is_malformed(rows: Seq<Seq<MemberModel>>, i: int, name: u8)
    requires
        0 <= i < rows.len(),
        name == NAME_RED || name == NAME_GREEN || name == NAME_BLUE,
        find_value(rows[i], name) matches Some(Some(n)) && n > 255,
    ensures
        pixels_of_rows(rows) == Err::<Seq<Rgb>, ValidationError>(
            ValidationError::MalformedPayload,
        ),
{
    assert(pixel_of_row(rows[i]) is None);
}

/// Reads the channel named `name` from the members of one object.
fn channel_from_row(row: &Vec<Member>, name: u8) -> (channel: Option<u8>)
    ensures
        channel == channel_of(row_model(*row), name),
{
    let ghost model = row_model(*row);
    let mut i: usize = 0;
    assert(model.skip(0) =~= model);
    while i < row.len()
        invariant
            i <= row@.len(),
            model == row_model(*row),
            find_value(model, name) == find_value(model.skip(i as int), name),
        decreases row@.len() - i,
    {
        let ghost rest = model.skip(i as int);
        assert(rest[0] == row@[i as int]@);
        assert(rest.drop_first() =~= model.skip(i + 1));
        let member = &row[i];
        if member.key.len() == 1 && member.key[0] == name {
            assert(member.key@ =~= seq![name]);
            return match member.value {
                Some(n) => if n <= 255 {
                    Some(n as u8)
                } else {
                    None
                },
                None => None,
            };
        }
        assert(member.key@ != seq![name]) by {
            if member.key@ == seq![name] {
                assert(seq![name].len() == 1);
                assert(seq![name][0] == name);
            }
        }
        i += 1;
    }
    None
}

/// Reads one pixel from the members of one object.
fn pixel_from_row(row: &Vec<Member>) -> (pixel: Option<Rgb>)
    ensures
        pixel == pixel_of_row(row_model(*row)),
{
    let r = channel_from_row(row, NAME_RED);
    let g = channel_from_row(row, NAME_GREEN);
    let b = channel_from_row(row, NAME_BLUE);
    match (r, g, b) {
        (Some(r), Some(g), Some(b)) => Some(Rgb::new(r, g, b)),
        _ => None,
    }
}

/// Turns the objects of a parsed array into a pixel command.
///
/// Succeeds exactly when every object has members `r`, `g` and `b` whose
/// values are integers from 0 to 255; members of other names are ignored.
/// Otherwise the payload is malformed.
pub fn pixels_from_rows(rows: &Vec<Vec<Member>>) -> (res: Result<Vec<Rgb>, ValidationError>)
    ensures
        is_verdict(res, pixels_of_rows(rows_model(*rows))),
{
    let ghost model = rows_model(*rows);
    let mut pixels: Vec<Rgb> = Vec::new();
    let mut i: usize = 0;
    while i < rows.len()
        invariant
            i <= rows@.len(),
            model == rows_model(*rows),
            pixels@.len() == i,
            forall|j: int| 0 <= j < i ==> (#[trigger] pixel_of_row(model[j])) == Some(pixels@[j]),
        decreases rows@.len() - i,
    {
        assert(model[i as int] == row_model(rows@[i as int]));
        match pixel_from_row(&rows[i]) {
            Some(pixel) => {
                pixels.push(pixel);
            },
            None => {
                assert(pixel_of_row(model[i as int]) is None);
                return Err(ValidationError::MalformedPayload);
            },
        }
        i += 1;
    }
    assert(pixels@ =~= Seq::new(model.len(), |i: int| pixel_of_row(model[i])->0));
    Ok(pixels)
}

/// Parses a text as a JSON array of pixel objects.
///
/// The JSON reading is `serde_json`'s; what it read decides the outcome as
/// [`pixels_of_rows`] says.
pub fn parse_pixels(body: &str) -> (res: Result<Vec<Rgb>, ValidationError>)
    ensures
        is_verdict(res, pixels_of_text(body@)),
{
    match parse_rows(body) {
        Ok(rows) => pixels_from_rows(&rows),
        Err(_) => Err(ValidationError::MalformedPayload),
    }
}

/// The body of one message while it arrives in pieces, for a transport that
/// does not say the length up front.
///
/// The buffer never holds more bytes than its budget: it counts the room
/// that is left, and the piece that does not fit is refused whole. From then
/// on the buffer is aborted, because what it holds is no complete message.
#[derive(Debug)]
pub struct PayloadBuffer {
    bytes: Vec<u8>,
    room: usize,
    aborted: bool,
}

impl PayloadBuffer {
    /// The bytes gathered so far.
    pub closed spec fn held(self) -> Seq<u8> {
        self.bytes@
    }

    /// The byte budget: what is held and the room that is left.
    pub closed spec fn limit(self) -> nat {
        self.bytes@.len() + self.room as nat
    }

    /// Whether a piece has been refused.
    pub closed spec fn is_aborted(self) -> bool {
        self.aborted
    }

    /// An empty buffer with the given budget.
    pub fn new(budget: usize) -> (buffer: Self)
        ensures
            buffer.held() == Seq::<u8>::empty(),
            buffer.limit() == budget,
            !buffer.is_aborted(),
    {
        PayloadBuffer { bytes: Vec::new(), room: budget, aborted: false }
    }

    /// Appends the next piece of the body.
    ///
    /// Fails with `PayloadTooLarge` exactly when the running total would
    /// exceed the budget, or when an earlier piece was refused. A refused
    /// piece leaves the held bytes as they were.
    pub fn push(&mut self, chunk: &[u8]) -> (res: Result<(), ValidationError>)
        ensures
            final(self).limit() == old(self).limit(),
            final(self).held().len() <= final(self).limit(),
            res is Ok <==> {
                &&& !old(self).is_aborted()
                &&& old(self).held().len() + chunk@.len() <= old(self).limit()
            },
            res is Ok ==> {
                &&& final(self).held() == old(self).held() + chunk@
                &&& !final(self).is_aborted()
            },
            res is Err ==> {
                &&& res == Err::<(), ValidationError>(ValidationError::PayloadTooLarge)
                &&& final(self).held() == old(self).held()
                &&& final(self).is_aborted()
            },
    {
        if self.aborted || chunk.len() > self.room {
            self.aborted = true;
            return Err(ValidationError::PayloadTooLarge);
        }
        let mut i: usize = 0;
        while i < chunk.len()
            invariant
                i <= chunk@.len(),
                self.aborted == old(self).aborted,
                self.room == old(self).room - i,
                chunk@.len() <= old(self).room,
                self.bytes@ == old(self).bytes@ + chunk@.take(i as int),
            decreases chunk@.len() - i,
        {
            self.bytes.push(chunk[i]);
            self.room -= 1;
            assert(chunk@.take(i + 1) =~= chunk@.take(i as int).push(chunk@[i as int]));
            i += 1;
        }
        assert(chunk@.take(chunk@.len() as int) =~= chunk@);
        Ok(())
    }

    /// Number of bytes gathered so far.
    pub fn len(&self) -> (n: usize)
        ensures
            n == self.held().len(),
            n <= self.limit(),
    {
        self.bytes.len()
    }

    /// Number of bytes that still fit.
    pub fn remaining(&self) -> (n: usize)
        ensures
            n == self.limit() - self.held().len(),
    {
        self.room
    }

    /// Ends the accumulation and hands out the body.
    ///
    /// Fails with `PayloadTooLarge` exactly when a piece was refused.
    pub fn finish(self) -> (res: Result<Vec<u8>, ValidationError>)
        ensures
            res is Ok <==> !self.is_aborted(),
            res matches Ok(body) ==> body@ == self.held() && body@.len() <= self.limit(),
            res is Err ==> res == Err::<Vec<u8>, ValidationError>(
                ValidationError::PayloadTooLarge,
            ),
    {
        if self.aborted {
            Err(ValidationError::PayloadTooLarge)
        } else {
            Ok(self.bytes)
        }
    }
}

/// The validator of one network surface: a byte budget and the four gates.
#[derive(Clone, Copy, Debug, PartialEq, Eq, Structural)]
pub struct Validator {
    pub budget: usize,
}

impl Validator {
    /// A validator with the given byte budget.
    pub fn new(budget: usize) -> (validator: Self)
        ensures
            validator.budget == budget,
    {
        Validator { budget }
    }

    /// A validator with the budget of [`MAX_PAYLOAD_LEN`] bytes.
    pub fn standard() -> (validator: Self)
        ensures
            validator.budget == MAX_PAYLOAD_LEN,
    {
        Validator { budget: MAX_PAYLOAD_LEN }
    }

    /// Judges a length that the transport declared before any byte of the
    /// body was stored.
    ///
    /// A length up to the budget passes; a longer one is refused as too
    /// large.
    pub fn check_declared_length(&self, declared: usize) -> (res: Result<(), ValidationError>)
        ensures
            res is Ok <==> declared <= self.budget,
            res is Err ==> res == Err::<(), ValidationError>(ValidationError::PayloadTooLarge),
    {
        if declared > self.budget {
            Err(ValidationError::PayloadTooLarge)
        } else {
            Ok(())
        }
    }

    /// An empty buffer for a body that arrives in pieces, with this budget.
    pub fn buffer(&self) -> (buffer: PayloadBuffer)
        ensures
            buffer.held() == Seq::<u8>::empty(),
            buffer.limit() == self.budget,
            !buffer.is_aborted(),
    {
        PayloadBuffer::new(self.budget)
    }

    /// Validates one complete message body.
    ///
    /// The outcome is exactly the [`verdict`] on the body under this budget.
    pub fn validate(&self, body: &[u8]) -> (res: Result<Vec<Rgb>, ValidationError>)
        ensures
            is_verdict(res, verdict(body@, self.budget as nat)),
    {
        if body.len() > self.budget {
            return Err(ValidationError::PayloadTooLarge);
        }
        match utf8_text(body) {
            Some(text) => {
                proof {
                    encode_utf8_decode_utf8(text@);
                }
                parse_pixels(text)
            },
            None => Err(ValidationError::InvalidEncoding),
        }
    }
}

} // verus!
