//! The two outside parsers that the validator rests on: the UTF-8 check of
//! the standard library and the JSON reader of `serde_json`.
//!
//! Nothing in this file is proved. Each item says what is taken on trust.

use serde_json::Value;
use std::collections::BTreeMap;
use vstd::prelude::*;
use vstd::string::StringSliceAdditionalSpecFns;
use vstd::utf8::valid_utf8;

verus! {

/// One member of a JSON object, reduced to what a pixel is read from: the
/// bytes of its name, and its value where that is an unsigned integer.
#[derive(Debug, PartialEq, Eq)]
pub struct Member {
    /// The member's name, unescaped, in UTF-8.
    pub key: Vec<u8>,
    /// The member's value if it is an integer in `0..=u64::MAX` written
    /// without fraction or exponent; `None` for every other value.
    pub value: Option<u64>,
}

/// The mathematical content of a [`Member`].
pub struct MemberModel {
    pub key: Seq<u8>,
    pub value: Option<u64>,
}

impl View for Member {
    type V = MemberModel;

    open spec fn view(&self) -> MemberModel {
        MemberModel { key: self.key@, value: self.value }
    }
}

/// The members of one object.
pub open spec fn row_model(row: Vec<Member>) -> Seq<MemberModel> {
    row@.map_values(|m: Member| m@)
}

/// The members of each object of an array.
pub open spec fn rows_model(rows: Vec<Vec<Member>>) -> Seq<Seq<MemberModel>> {
    rows@.map_values(|row: Vec<Member>| row_model(row))
}

/// The error type of `serde_json`.
#[verifier::external_type_specification]
#[verifier::external_body]
pub struct ExJsonError(serde_json::Error);

/// What `serde_json` reads from `text` when asked for an array of objects:
/// for each object of the array, in order, its members; `None` when the text
/// is not one JSON document of that shape.
pub uninterp spec fn json_rows(text: Seq<char>) -> Option<Seq<Seq<MemberModel>>>;

/// `core::str::from_utf8`.
///
/// Trusted: the call succeeds exactly on the byte strings that are valid
/// UTF-8, and the string it returns is made of the very bytes it was given.
#[verifier::external_body]
pub(crate) fn utf8_text(bytes: &[u8]) -> (text: Option<&str>)
    ensures
        text is Some <==> valid_utf8(bytes@),
        text matches Some(s) ==> s.spec_bytes() == bytes@,
{
    core::str::from_utf8(bytes).ok()
}

/// `serde_json::from_str`, asked for a `Vec<BTreeMap<String, Value>>`, with
/// `Value::as_u64` applied to each member's value.
///
/// Trusted: the outcome depends on the text alone. The members of an object
/// come in the order of the map, and a name that occurs twice in an object
/// is listed once, with its last value.
#[verifier::external_body]
pub(crate) fn parse_rows(text: &str) -> (res: Result<Vec<Vec<Member>>, serde_json::Error>)
    ensures
        match res {
            Ok(rows) => json_rows(text@) == Some(rows_model(rows)),
            Err(_) => json_rows(text@) is None,
        },
{
    let objects: Vec<BTreeMap<String, Value>> = serde_json::from_str(text)?;
    Ok(
        objects.into_iter().map(
            |object|
                object.into_iter().map(
                    |(key, value)| Member { key: key.into_bytes(), value: value.as_u64() },
                ).collect(),
        ).collect(),
    )
}

} // verus!
