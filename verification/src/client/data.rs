//! An account's profile as the profile service gives it.
//!
//! The service sends the value and the signature of each property as
//! base64 text in the standard alphabet with padding. Here that text is
//! turned into bytes.

use vstd::prelude::*;
use vstd::string::StringSliceAdditionalSpecFns;

verus! {

/// Why a text is no base64.
#[derive(Debug, Clone, Copy, PartialEq, Eq, Structural)]
pub enum DecodeError {
    /// A byte that is no symbol of the alphabet, with its offset.
    InvalidByte(usize, u8),
    /// The text has a length that no encoding has.
    InvalidLength,
    /// The last symbol holds bits that belong to no byte, with its offset.
    InvalidLastSymbol(usize, u8),
}

/// What `base64::decode_config` makes of the text `input` under the
/// configuration `base64::STANDARD`: the bytes it stands for, or why it
/// stands for none.
pub uninterp spec fn base64_standard(input: Seq<char>) -> Result<Seq<u8>, DecodeError>;

/// Calls `base64::decode_config` with `base64::STANDARD`. The result is a
/// function of the text alone and is known here only by its name,
/// `base64_standard`; a failure is handed on variant by variant.
///
/// The outside function sizes its buffer as the number of chunks of eight
/// bytes, rounded up, times six, and panics where that count overflows;
/// the bound on the length rules this out.
#[verifier::external_body]
fn decode_standard(input: &str) -> (decoded: Result<Vec<u8>, DecodeError>)
    requires
        input.spec_bytes().len() + 7 <= usize::MAX,
    ensures
        match decoded {
            Ok(bytes) => base64_standard(input@) == Ok::<_, DecodeError>(bytes@),
            Err(e) => base64_standard(input@) == Err::<Seq<u8>, _>(e),
        },
{
    base64::decode_config(input, base64::STANDARD).map_err(
        |e| match e {
            base64::DecodeError::InvalidByte(at, byte) => DecodeError::InvalidByte(at, byte),
            base64::DecodeError::InvalidLength => DecodeError::InvalidLength,
            base64::DecodeError::InvalidLastSymbol(at, byte) => DecodeError::InvalidLastSymbol(
                at,
                byte,
            ),
        },
    )
}

/// Calls `Vec::into_boxed_slice`, which keeps the elements and their order.
#[verifier::external_body]
fn into_boxed_slice(bytes: Vec<u8>) -> (boxed: Box<[u8]>)
    ensures
        boxed@ == bytes@,
{
    bytes.into_boxed_slice()
}

/// The bytes of a decoded text, or its failure.
pub open spec fn bytes_view(decoded: Result<Box<[u8]>, DecodeError>) -> Result<
    Seq<u8>,
    DecodeError,
> {
    match decoded {
        Ok(bytes) => Ok(bytes@),
        Err(e) => Err(e),
    }
}

/// The bytes of a decoded optional text, or its failure.
pub open spec fn optional_bytes_view(decoded: Result<Option<Box<[u8]>>, DecodeError>) -> Result<
    Option<Seq<u8>>,
    DecodeError,
> {
    match decoded {
        Ok(Some(bytes)) => Ok(Some(bytes@)),
        Ok(None) => Ok(None),
        Err(e) => Err(e),
    }
}

/// Whether `input` is short enough to be decoded: the count of its bytes,
/// rounded up to whole chunks, has to fit the machine's word.
pub open spec fn decodable(input: &str) -> bool {
    input.spec_bytes().len() + 7 <= usize::MAX
}

/// The bytes that the base64 text `input` stands for.
pub fn deserialize_base64(input: &str) -> (decoded: Result<Box<[u8]>, DecodeError>)
    requires
        decodable(input),
    ensures
        bytes_view(decoded) == base64_standard(input@),
{
    match decode_standard(input) {
        Ok(bytes) => Ok(into_boxed_slice(bytes)),
        Err(e) => Err(e),
    }
}

/// What an optional base64 text stands for: nothing where there is no
/// text, else the bytes of the text.
pub open spec fn spec_deserialize_base64_optional(input: Option<Seq<char>>) -> Result<
    Option<Seq<u8>>,
    DecodeError,
> {
    match input {
        None => Ok(None),
        Some(text) => match base64_standard(text) {
            Ok(bytes) => Ok(Some(bytes)),
            Err(e) => Err(e),
        },
    }
}

/// The bytes that an optional base64 text stands for.
pub fn deserialize_base64_optional(input: Option<&str>) -> (decoded: Result<
    Option<Box<[u8]>>,
    DecodeError,
>)
    requires
        input matches Some(text) ==> decodable(text),
    ensures
        optional_bytes_view(decoded) == spec_deserialize_base64_optional(
            match input {
                Some(text) => Some(text@),
                None => None,
            },
        ),
{
    match input {
        None => Ok(None),
        Some(text) => match deserialize_base64(text) {
            Ok(bytes) => Ok(Some(bytes)),
            Err(e) => Err(e),
        },
    }
}

/// One property of a profile.
#[derive(Debug)]
pub struct Properity {
    pub name: String,
    pub value: Box<[u8]>,
    pub signature: Option<Box<[u8]>>,
}

/// A `Properity` by its view.
pub struct ProperityView {
    pub name: Seq<char>,
    pub value: Seq<u8>,
    pub signature: Option<Seq<u8>>,
}

impl View for Properity {
    type V = ProperityView;

    open spec fn view(&self) -> ProperityView {
        ProperityView {
            name: self.name@,
            value: self.value@,
            signature: match self.signature {
                Some(s) => Some(s@),
                None => None,
            },
        }
    }
}

/// The property made of what its value and its signature were decoded to.
/// The value is looked at first: its failure is the property's.
pub open spec fn spec_assemble(
    name: Seq<char>,
    value: Result<Seq<u8>, DecodeError>,
    signature: Result<Option<Seq<u8>>, DecodeError>,
) -> Result<ProperityView, DecodeError> {
    match value {
        Err(e) => Err(e),
        Ok(value) => match signature {
            Err(e) => Err(e),
            Ok(signature) => Ok(ProperityView { name, value, signature }),
        },
    }
}

/// What a property with the given texts for its value and its signature
/// comes to.
pub open spec fn spec_decode_properity(
    name: Seq<char>,
    value: Seq<char>,
    signature: Option<Seq<char>>,
) -> Result<ProperityView, DecodeError> {
    spec_assemble(name, base64_standard(value), spec_deserialize_base64_optional(signature))
}

/// The view of a property, or its failure.
pub open spec fn properity_view(property: Result<Properity, DecodeError>) -> Result<
    ProperityView,
    DecodeError,
> {
    match property {
        Ok(p) => Ok(p@),
        Err(e) => Err(e),
    }
}

impl Properity {
    /// The property with the name `name`, made of what its value and its
    /// signature were decoded to.
    pub fn assemble(
        name: String,
        value: Result<Box<[u8]>, DecodeError>,
        signature: Result<Option<Box<[u8]>>, DecodeError>,
    ) -> (property: Result<Properity, DecodeError>)
        ensures
            properity_view(property) == spec_assemble(
                name@,
                bytes_view(value),
                optional_bytes_view(signature),
            ),
    {
        match value {
            Err(e) => Err(e),
            Ok(value) => match signature {
                Err(e) => Err(e),
                Ok(signature) => Ok(Properity { name, value, signature }),
            },
        }
    }

    /// The property with the name `name` whose value and signature are
    /// sent as the base64 texts `value` and `signature`.
    pub fn decode(name: String, value: &str, signature: Option<&str>) -> (property: Result<
        Properity,
        DecodeError,
    >)
        requires
            decodable(value),
            signature matches Some(text) ==> decodable(text),
        ensures
            properity_view(property) == spec_decode_properity(
                name@,
                value@,
                match signature {
                    Some(text) => Some(text@),
                    None => None,
                },
            ),
    {
        let value = deserialize_base64(value);
        let signature = deserialize_base64_optional(signature);
        Self::assemble(name, value, signature)
    }
}

/// An account's profile: its identifier, its current name and its
/// properties.
#[derive(Debug)]
pub struct Profile {
    pub id: u128,
    pub name: String,
    pub properties: Vec<Properity>,
}

} // verus!
