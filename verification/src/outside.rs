//! Declarations of the codec crates' error types, and the trusted functions
//! that render their reports as text.
//!
//! The codecs themselves are outside collaborators: their errors are opaque
//! values here, carried through the rejection types so that the rejection
//! mapper can echo their text.

use vstd::prelude::*;
use vstd::string::StringSliceAdditionalSpecFns;
use vstd::utf8::valid_utf8;

verus! {

/// Relies on `core::str::from_utf8`: it succeeds exactly on valid UTF-8,
/// and the text it returns is carried by the same bytes.
#[verifier::external_body]
pub fn bytes_as_str(b: &[u8]) -> (r: Option<&str>)
    ensures
        r is Some <==> valid_utf8(b@),
        r matches Some(s) ==> s.spec_bytes() == b@,
{
    match core::str::from_utf8(b) {
        Ok(s) => Some(s),
        Err(_) => None,
    }
}

#[verifier::external_type_specification]
#[verifier::external_body]
pub struct ExDeserializeError(facet_format::DeserializeError);

#[verifier::external_type_specification]
#[verifier::external_body]
pub struct ExUrlEncodedError(facet_urlencoded::UrlEncodedError);

#[verifier::external_type_specification]
#[verifier::external_body]
pub struct ExJsonSerializeError(facet_json::JsonSerializeError);

#[verifier::external_type_specification]
#[verifier::external_body]
#[verifier::reject_recursive_types(E)]
pub struct ExSerializeError<E: core::fmt::Debug>(facet_format::SerializeError<E>);

/// Relies on the `Display` impl of `facet_format::DeserializeError` to
/// render the decoder's report.
#[verifier::external_body]
pub fn deserialize_error_text(e: &facet_format::DeserializeError) -> String {
    format!("{e}")
}

/// Relies on the `Display` impl of `facet_urlencoded::UrlEncodedError` to
/// render the decoder's report.
#[verifier::external_body]
pub fn urlencoded_error_text(e: &facet_urlencoded::UrlEncodedError) -> String {
    format!("{e}")
}

/// Relies on the `Display` impl of `facet_format::SerializeError` to render
/// the encoder's report.
#[verifier::external_body]
pub fn serialize_error_text(e: &facet_format::SerializeError<facet_json::JsonSerializeError>) -> String {
    format!("{e}")
}

} // verus!
