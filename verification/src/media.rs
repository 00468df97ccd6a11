//! Content-type negotiation: the guard that every extractor runs once per
//! request, before any body byte is interpreted.

use vstd::prelude::*;
use vstd::string::StringSliceAdditionalSpecFns;
use crate::bytes::{bytes_eq, bytes_starts_with};

verus! {

/// Outcome of checking a request's declared media type against what a
/// format accepts.
#[derive(Clone, Copy, Debug, PartialEq, Eq, Structural)]
pub enum CtVerdict {
    /// The header is present and names an accepted media type.
    Accepted,
    /// The request carries no `Content-Type` header at all.
    MissingContentType,
    /// The header is present but names a media type the format rejects.
    InvalidContentType,
}

/// The single media type the JSON format accepts, as bytes.
pub open spec fn json_media_type() -> Seq<u8> {
    "application/json".spec_bytes()
}

/// The first of the two prefixes the form format accepts, as bytes.
pub open spec fn urlencoded_media_type() -> Seq<u8> {
    "application/x-www-form-urlencoded".spec_bytes()
}

/// The second of the two prefixes the form format accepts, as bytes.
pub open spec fn multipart_media_type() -> Seq<u8> {
    "multipart/form-data".spec_bytes()
}

/// The view of an optional header value.
pub open spec fn opt_bytes_view(ct: Option<Vec<u8>>) -> Option<Seq<u8>> {
    match ct {
        Option::None => Option::None,
        Option::Some(b) => Option::Some(b@),
    }
}

/// What the JSON guard decides: the header must equal `application/json`
/// exactly.
pub open spec fn json_verdict(ct: Option<Seq<u8>>) -> CtVerdict {
    match ct {
        Option::None => CtVerdict::MissingContentType,
        Option::Some(v) => if v == json_media_type() {
            CtVerdict::Accepted
        } else {
            CtVerdict::InvalidContentType
        },
    }
}

/// What the form guard decides: the header must start with one of the two
/// accepted prefixes, covering URL-encoded and multipart submissions.
pub open spec fn form_verdict(ct: Option<Seq<u8>>) -> CtVerdict {
    match ct {
        Option::None => CtVerdict::MissingContentType,
        Option::Some(v) => if urlencoded_media_type().is_prefix_of(v)
            || multipart_media_type().is_prefix_of(v) {
            CtVerdict::Accepted
        } else {
            CtVerdict::InvalidContentType
        },
    }
}

/// The accepted JSON media type as a byte slice.
pub fn json_media_type_bytes() -> (r: &'static [u8])
    ensures
        r@ == json_media_type(),
{
    "application/json".as_bytes()
}

/// The URL-encoded media type prefix as a byte slice.
pub fn urlencoded_media_type_bytes() -> (r: &'static [u8])
    ensures
        r@ == urlencoded_media_type(),
{
    "application/x-www-form-urlencoded".as_bytes()
}

/// The multipart media type prefix as a byte slice.
pub fn multipart_media_type_bytes() -> (r: &'static [u8])
    ensures
        r@ == multipart_media_type(),
{
    "multipart/form-data".as_bytes()
}

/// Run the JSON format's content-type guard on an optional header value.
pub fn check_json_content_type(ct: &Option<Vec<u8>>) -> (v: CtVerdict)
    ensures
        v == json_verdict(opt_bytes_view(*ct)),
{
    match ct {
        Option::None => CtVerdict::MissingContentType,
        Option::Some(b) => {
            if bytes_eq(b.as_slice(), json_media_type_bytes()) {
                CtVerdict::Accepted
            } else {
                CtVerdict::InvalidContentType
            }
        },
    }
}

/// Run the form format's content-type guard on an optional header value.
pub fn check_form_content_type(ct: &Option<Vec<u8>>) -> (v: CtVerdict)
    ensures
        v == form_verdict(opt_bytes_view(*ct)),
{
    match ct {
        Option::None => CtVerdict::MissingContentType,
        Option::Some(b) => {
            if bytes_starts_with(b.as_slice(), urlencoded_media_type_bytes())
                || bytes_starts_with(b.as_slice(), multipart_media_type_bytes()) {
                CtVerdict::Accepted
            } else {
                CtVerdict::InvalidContentType
            }
        },
    }
}

/// The guard is a pure function of the header: any two runs of the JSON
/// guard on the same header agree, so re-validating a request can never
/// change its verdict.
pub proof fn lemma_json_guard_idempotent(ct: Option<Seq<u8>>, v1: CtVerdict, v2: CtVerdict)
    requires
        v1 == json_verdict(ct),
        v2 == json_verdict(ct),
    ensures
        v1 == v2,
{
}

/// The guard is a pure function of the header: any two runs of the form
/// guard on the same header agree, so re-validating a request can never
/// change its verdict.
pub proof fn lemma_form_guard_idempotent(ct: Option<Seq<u8>>, v1: CtVerdict, v2: CtVerdict)
    requires
        v1 == form_verdict(ct),
        v2 == form_verdict(ct),
    ensures
        v1 == v2,
{
}

} // verus!
