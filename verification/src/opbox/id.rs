//! Identifiers of boxes.

use vstd::prelude::*;
use crate::codec::{Codec, DecodeError, DeepCopy, ErrorView};
use crate::json::{Json, JsonView};

verus! {

/// The identifier that a text stands for, where it stands for one: what
/// `uuid::Uuid::parse_str` gives for the text, as a 128-bit number.
pub uninterp spec fn uuid_value(text: Seq<char>) -> Option<u128>;

/// The text that an identifier is written as: what `uuid::Uuid` prints for
/// the number in its hyphenated form.
pub uninterp spec fn uuid_text(value: u128) -> Seq<char>;

/// Calls `uuid::Uuid::parse_str` and takes the result as a number, with
/// `as_u128`. The contract names the result, and claims that the text which
/// the crate prints for a parsed identifier is parsed to the same identifier.
#[verifier::external_body]
fn parse_uuid(text: &str) -> (r: Option<u128>)
    ensures
        r == uuid_value(text@),
        r matches Some(v) ==> uuid_value(uuid_text(v)) == Some(v),
{
    match uuid::Uuid::parse_str(text) {
        Ok(u) => Some(u.as_u128()),
        Err(_) => None,
    }
}

/// Makes a `uuid::Uuid` of the number with `from_u128` and prints it in its
/// hyphenated form. The contract names the result, and claims that the
/// printed text is parsed to the same identifier.
#[verifier::external_body]
fn format_uuid(value: u128) -> (r: String)
    ensures
        r@ == uuid_text(value),
        uuid_value(r@) == Some(value),
{
    uuid::Uuid::from_u128(value).hyphenated().to_string()
}

/// The identifier of a box: a UUID.
#[derive(Clone, Copy, Debug, PartialEq, Eq, Hash)]
pub struct BoxID {
    value: u128,
}

impl BoxID {
    /// The identifier as a number.
    pub closed spec fn number(self) -> u128 {
        self.value
    }

    /// The identifier that a text stands for, if it stands for one.
    pub fn parse(text: &str) -> (r: Option<BoxID>)
        ensures
            match r {
                Some(id) => uuid_value(text@) == Some(id.number()) && BoxID::valid(id.number()),
                None => uuid_value(text@) is None,
            },
    {
        match BoxID::from_parsed(parse_uuid(text)) {
            Ok(id) => Some(id),
            Err(_) => None,
        }
    }

    /// The identifier that parsing a text gave, or the refusal of a text
    /// that gave none.
    pub fn from_parsed(parsed: Option<u128>) -> (r: Result<BoxID, DecodeError>)
        ensures
            match parsed {
                Some(value) => r matches Ok(id) && id.number() == value,
                None => r matches Err(e) && e.deep_view() == ErrorView::mismatch(),
            },
    {
        match parsed {
            Some(value) => Ok(BoxID { value }),
            None => Err(DecodeError::mismatch()),
        }
    }

    /// The identifier as a number.
    pub fn as_u128(&self) -> (r: u128)
        ensures
            r == self.number(),
    {
        self.value
    }

    /// The identifier as text.
    pub fn to_text(&self) -> (r: String)
        ensures
            r@ == uuid_text(self.number()),
    {
        format_uuid(self.value)
    }
}

impl DeepView for BoxID {
    type V = u128;

    closed spec fn deep_view(&self) -> u128 {
        self.value
    }
}

/// A string: the identifier as text.
impl Codec for BoxID {
    open spec fn decode_spec(j: JsonView) -> Result<u128, ErrorView> {
        match j {
            JsonView::String(s) => match uuid_value(s) {
                Some(v) => Ok(v),
                None => Err(ErrorView::mismatch()),
            },
            _ => Err(ErrorView::mismatch()),
        }
    }

    open spec fn encode_spec(v: u128) -> JsonView {
        JsonView::String(uuid_text(v))
    }

    /// The identifier's text stands for the identifier.
    open spec fn valid(v: u128) -> bool {
        uuid_value(uuid_text(v)) == Some(v)
    }

    fn decode(j: &Json) -> (r: Result<BoxID, DecodeError>) {
        match j {
            Json::String(s) => BoxID::from_parsed(parse_uuid(s.as_str())),
            _ => Err(DecodeError::mismatch()),
        }
    }

    fn encode(&self) -> (j: Json) {
        Json::String(format_uuid(self.value))
    }

    proof fn lemma_round_trip(v: u128) {
    }
}

impl DeepCopy for BoxID {
    fn deep_copy(&self) -> (r: BoxID) {
        *self
    }
}

} // verus!
