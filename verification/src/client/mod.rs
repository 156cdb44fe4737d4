//! What the profile lookup needs to know and what it can report.

use crate::storage::data::spec_into_argument_uuid;
use crate::utils::decimal::digit_char;
use vstd::prelude::*;
use vstd::string::StringExecFns;

pub mod config;
pub mod data;

verus! {

/// Why a profile could not be had.
#[derive(Debug)]
pub enum JsonRequesterError {
    /// The response body did not parse as a profile; holds the parser's
    /// message.
    Deserialize(String),
    /// The connection or the protocol failed; holds the transport's message.
    Hyper(String),
    /// The remote answered with a status other than success; holds the
    /// status code.
    StatusCode(u16),
}

/// A `JsonRequesterError` with its messages as sequences of characters.
pub enum JsonRequesterErrorView {
    Deserialize(Seq<char>),
    Hyper(Seq<char>),
    StatusCode(u16),
}

impl View for JsonRequesterError {
    type V = JsonRequesterErrorView;

    open spec fn view(&self) -> JsonRequesterErrorView {
        match self {
            JsonRequesterError::Deserialize(e) => JsonRequesterErrorView::Deserialize(e@),
            JsonRequesterError::Hyper(e) => JsonRequesterErrorView::Hyper(e@),
            JsonRequesterError::StatusCode(c) => JsonRequesterErrorView::StatusCode(*c),
        }
    }
}

/// Where the profile service answers; the account's identifier follows.
pub const PROFILE_URI: &'static str = "https://sessionserver.mojang.com/session/minecraft/profile/";

/// The status with which the profile service hands out a profile.
pub const OK: u16 = 200;

/// The character that stands for the hexadecimal digit `d`, in lower case.
pub open spec fn hex_digit(d: nat) -> char {
    if d < 10 {
        digit_char(d)
    } else if d == 10 {
        'a'
    } else if d == 11 {
        'b'
    } else if d == 12 {
        'c'
    } else if d == 13 {
        'd'
    } else if d == 14 {
        'e'
    } else {
        'f'
    }
}

/// The bytes `bytes` in hexadecimal, two digits each.
pub open spec fn hex(bytes: Seq<u8>) -> Seq<char>
    decreases bytes.len(),
{
    if bytes.len() == 0 {
        Seq::empty()
    } else {
        hex(bytes.drop_last()).push(hex_digit((bytes.last() / 16) as nat)).push(
            hex_digit((bytes.last() % 16) as nat),
        )
    }
}

/// An identifier as it is written in an address: its sixteen bytes in
/// hexadecimal, in groups of four, two, two, two and six bytes with a
/// hyphen between them.
pub open spec fn hyphenated(uuid: u128) -> Seq<char> {
    let bytes = spec_into_argument_uuid(uuid);
    hex(bytes.subrange(0, 4)) + seq!['-'] + hex(bytes.subrange(4, 6)) + seq!['-'] + hex(
        bytes.subrange(6, 8),
    ) + seq!['-'] + hex(bytes.subrange(8, 10)) + seq!['-'] + hex(bytes.subrange(10, 16))
}

/// Calls `uuid::Uuid::from_u128` and the `Display` of the identifier it
/// makes, which writes the identifier's bytes in lower-case hexadecimal
/// with hyphens after the fourth, sixth, eighth and tenth byte.
#[verifier::external_body]
fn to_hyphenated(uuid: u128) -> (text: String)
    ensures
        text@ == hyphenated(uuid),
{
    uuid::Uuid::from_u128(uuid).to_string()
}

/// The address under which the profile service gives the profile of the
/// account `uuid`.
pub fn profile_uri(uuid: u128) -> (uri: String)
    ensures
        uri@ == PROFILE_URI@ + hyphenated(uuid),
{
    let id = to_hyphenated(uuid);
    String::from_str(PROFILE_URI).concat(id.as_str())
}

/// Whether an answer with the status `status` holds a profile: only the
/// status of success does, every other status is the failure to report.
pub fn check_status(status: u16) -> (checked: Result<(), JsonRequesterError>)
    ensures
        match checked {
            Ok(_) => status == OK,
            Err(e) => status != OK && e@ == JsonRequesterErrorView::StatusCode(status),
        },
{
    if status == OK {
        Ok(())
    } else {
        Err(JsonRequesterError::StatusCode(status))
    }
}

} // verus!
