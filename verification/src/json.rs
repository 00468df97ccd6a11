//! The JSON format: typed wrapper, rejection, extraction state machine and
//! outbound response encoding.

use core::marker::PhantomData;

use vstd::prelude::*;
use vstd::slice::slice_to_vec;
use vstd::string::StringExecFns;

use crate::media::{
    check_json_content_type, json_media_type, json_media_type_bytes, json_verdict, opt_bytes_view,
    CtVerdict,
};
use crate::outside::{deserialize_error_text, serialize_error_text};
use crate::request::{BodyPoll, ExtractPoll, RequestHead};

verus! {

/// Typed wrapper around one JSON-decoded (or to-be-encoded) value. It owns
/// its inner value and has no representation of its own beyond it.
#[derive(Debug)]
pub struct Json<T>(pub T);

impl<T> Json<T> {
    /// Unwrap into inner `T` value.
    pub fn into_inner(self) -> (r: T)
        ensures
            r == self.0,
    {
        self.0
    }

    /// Borrow the inner value.
    pub fn inner(&self) -> (r: &T)
        ensures
            r == &self.0,
    {
        &self.0
    }

    /// Borrow the inner value mutably.
    pub fn inner_mut(&mut self) -> (r: &mut T)
        ensures
            *r == old(self).0,
            *final(self) == (Json(*final(r))),
    {
        &mut self.0
    }
}

/// Why a JSON extraction failed. Exactly one case holds, fixed at the point
/// of failure.
pub enum JsonRejection {
    /// Failed to read the request body; carries the transport error's text.
    Body(String),
    /// Failed to deserialize the JSON data; carries the decoder's report.
    Deserialize(facet_format::DeserializeError),
    /// Missing `Content-Type: application/json` header.
    MissingContentType,
    /// Invalid `Content-Type` header (not application/json).
    InvalidContentType,
}

/// The HTTP status each JSON rejection maps to.
pub open spec fn spec_json_status(r: JsonRejection) -> u16 {
    match r {
        JsonRejection::Body(_) => 400,
        JsonRejection::Deserialize(_) => 422,
        JsonRejection::MissingContentType => 415,
        JsonRejection::InvalidContentType => 415,
    }
}

impl JsonRejection {
    /// The HTTP status code this rejection is rendered with.
    pub fn status_code(&self) -> (s: u16)
        ensures
            s == spec_json_status(*self),
    {
        match self {
            JsonRejection::Body(_) => 400,
            JsonRejection::Deserialize(_) => 422,
            JsonRejection::MissingContentType => 415,
            JsonRejection::InvalidContentType => 415,
        }
    }

    /// The human-readable line this rejection is rendered with.
    pub fn message(&self) -> (m: String)
        ensures
            match *self {
                JsonRejection::Body(t) => m@ == "Failed to read request body: "@ + t@,
                JsonRejection::Deserialize(_) => exists|d: Seq<char>|
                    m@ == "Failed to deserialize JSON: "@ + d,
                JsonRejection::MissingContentType => m@
                    == "Missing `Content-Type: application/json` header"@,
                JsonRejection::InvalidContentType => m@
                    == "Invalid `Content-Type` header: expected `application/json`"@,
            },
    {
        match self {
            JsonRejection::Body(t) => {
                String::from_str("Failed to read request body: ").concat(t.as_str())
            },
            JsonRejection::Deserialize(e) => {
                let text = deserialize_error_text(e);
                let m = String::from_str("Failed to deserialize JSON: ").concat(text.as_str());
                proof {
                    assert(m@ == "Failed to deserialize JSON: "@ + text@);
                }
                m
            },
            JsonRejection::MissingContentType => {
                String::from_str("Missing `Content-Type: application/json` header")
            },
            JsonRejection::InvalidContentType => {
                String::from_str("Invalid `Content-Type` header: expected `application/json`")
            },
        }
    }
}

/// Relies on `facet_json::from_slice`: parses a JSON document into `T`, or
/// reports the parse failure as a structured error.
#[verifier::external_body]
fn decode_json<T: facet::Facet<'static>>(body: &[u8]) -> Result<
    T,
    facet_format::DeserializeError,
> {
    facet_json::from_slice(body)
}

/// How a decode outcome becomes the extraction's terminal result: success is
/// wrapped, failure becomes the decode rejection.
pub open spec fn spec_finish_json_decode<T>(d: Result<T, facet_format::DeserializeError>) -> Result<
    Json<T>,
    JsonRejection,
> {
    match d {
        Result::Ok(v) => Result::Ok(Json(v)),
        Result::Err(e) => Result::Err(JsonRejection::Deserialize(e)),
    }
}

/// Wrap a decode outcome for handler consumption. Verified for every
/// possible outcome of the codec's decode.
pub fn finish_json_decode<T>(d: Result<T, facet_format::DeserializeError>) -> (out: Result<
    Json<T>,
    JsonRejection,
>)
    ensures
        out == spec_finish_json_decode(d),
{
    match d {
        Result::Ok(v) => Result::Ok(Json(v)),
        Result::Err(e) => Result::Err(JsonRejection::Deserialize(e)),
    }
}

/// The JSON extraction state machine. It holds the request head until the
/// guard has run once; every later resumption goes straight to the body.
pub struct JsonExtractFut<T> {
    head: Option<RequestHead>,
    marker: PhantomData<T>,
}

impl<T> JsonExtractFut<T> {
    /// The head still awaiting its guard check, as the header's view.
    pub closed spec fn pending_head(&self) -> Option<Option<Seq<u8>>> {
        match self.head {
            Option::None => Option::None,
            Option::Some(h) => Option::Some(opt_bytes_view(h.content_type)),
        }
    }

    /// The verdict the guard phase of the next resumption produces: the
    /// header's verdict on the first resumption, `Accepted` afterwards,
    /// since the guard never re-runs.
    pub open spec fn guard_outcome(&self) -> CtVerdict {
        match self.pending_head() {
            Option::Some(ct) => json_verdict(ct),
            Option::None => CtVerdict::Accepted,
        }
    }

    /// Begin an extraction for a request whose `Content-Type` header holds
    /// the given bytes (or is absent).
    pub fn new(content_type: Option<Vec<u8>>) -> (r: Self)
        ensures
            r.pending_head() == Option::Some(opt_bytes_view(content_type)),
    {
        JsonExtractFut { head: Option::Some(RequestHead { content_type }), marker: PhantomData }
    }

    /// Whether the guard still has to run, that is, whether no resumption
    /// has happened yet.
    pub fn guard_pending(&self) -> (b: bool)
        ensures
            b == (self.pending_head() is Some),
    {
        self.head.is_some()
    }
}

impl<T: facet::Facet<'static>> JsonExtractFut<T> {
    /// One resumption of the extraction: run the guard if it has not run
    /// yet, then follow the body read. A guard failure is terminal before
    /// any body byte is interpreted; a completed body is decoded at once.
    pub fn poll(&mut self, body: BodyPoll) -> (r: ExtractPoll<Json<T>, JsonRejection>)
        ensures
            final(self).pending_head() is None,
            old(self).guard_outcome() == CtVerdict::MissingContentType ==> r == ExtractPoll::<
                Json<T>,
                JsonRejection,
            >::Ready(Result::Err(JsonRejection::MissingContentType)),
            old(self).guard_outcome() == CtVerdict::InvalidContentType ==> r == ExtractPoll::<
                Json<T>,
                JsonRejection,
            >::Ready(Result::Err(JsonRejection::InvalidContentType)),
            old(self).guard_outcome() == CtVerdict::Accepted ==> match body {
                BodyPoll::Pending => r == ExtractPoll::<Json<T>, JsonRejection>::Pending,
                BodyPoll::Failure(t) => r == ExtractPoll::<Json<T>, JsonRejection>::Ready(
                    Result::Err(JsonRejection::Body(t)),
                ),
                BodyPoll::Payload(_) => exists|d: Result<T, facet_format::DeserializeError>|
                    r == ExtractPoll::<Json<T>, JsonRejection>::Ready(spec_finish_json_decode(d)),
            },
    {
        let verdict = match &self.head {
            Option::Some(h) => check_json_content_type(&h.content_type),
            Option::None => CtVerdict::Accepted,
        };
        self.head = Option::None;
        match verdict {
            CtVerdict::MissingContentType => {
                return ExtractPoll::Ready(Result::Err(JsonRejection::MissingContentType));
            },
            CtVerdict::InvalidContentType => {
                return ExtractPoll::Ready(Result::Err(JsonRejection::InvalidContentType));
            },
            CtVerdict::Accepted => {},
        }
        match body {
            BodyPoll::Pending => ExtractPoll::Pending,
            BodyPoll::Failure(t) => ExtractPoll::Ready(Result::Err(JsonRejection::Body(t))),
            BodyPoll::Payload(b) => {
                let d = decode_json::<T>(b.as_slice());
                let ghost gd = d;
                let out = finish_json_decode(d);
                let r = ExtractPoll::Ready(out);
                proof {
                    assert(r == ExtractPoll::<Json<T>, JsonRejection>::Ready(
                        spec_finish_json_decode(gd),
                    ));
                }
                r
            },
        }
    }
}

/// The parts of an outbound HTTP response that this library decides: the
/// status, the `Content-Type` header if one is set, and the body text.
pub struct HttpResponseParts {
    /// The HTTP status code.
    pub status: u16,
    /// The `Content-Type` header's bytes, or `None` when no such header is
    /// set.
    pub content_type: Option<Vec<u8>>,
    /// The body text.
    pub body: String,
}

/// Relies on `facet_json::to_string`: serializes the value as JSON text, or
/// reports the failure as a structured error.
#[verifier::external_body]
fn encode_json<'a, T: facet::Facet<'a>>(value: &T) -> Result<
    String,
    facet_format::SerializeError<facet_json::JsonSerializeError>,
> {
    facet_json::to_string(value)
}

/// Render an encode outcome as response parts: encode success is the OK
/// response carrying the encoded text under the JSON media type, encode
/// failure the server-error response carrying the encoder's report.
/// Verified for every possible outcome of the codec's encode.
pub fn render_encoded(
    enc: Result<String, facet_format::SerializeError<facet_json::JsonSerializeError>>,
) -> (r: HttpResponseParts)
    ensures
        enc matches Result::Ok(s) ==> r.status == 200 && (r.content_type matches Option::Some(ct)
            && ct@ == json_media_type()) && r.body@ == s@,
        enc matches Result::Err(_) ==> r.status == 500 && r.content_type is None,
{
    match enc {
        Result::Ok(s) => HttpResponseParts {
            status: 200,
            content_type: Option::Some(slice_to_vec(json_media_type_bytes())),
            body: s,
        },
        Result::Err(e) => {
            let text = serialize_error_text(&e);
            HttpResponseParts { status: 500, content_type: Option::None, body: text }
        },
    }
}

impl<T> Json<T> {
    /// Encode the wrapped value for the wire: a `200` response holding the
    /// JSON text under the JSON media type when the codec's encode
    /// succeeds, a `500` response otherwise.
    pub fn respond<'a>(self) -> (r: HttpResponseParts) where T: facet::Facet<'a>
        ensures
            r.status == 200 || r.status == 500,
            r.status == 200 ==> (r.content_type matches Option::Some(ct) && ct@
                == json_media_type()),
            r.status == 500 ==> r.content_type is None,
    {
        let enc = encode_json(&self.0);
        render_encoded(enc)
    }
}

/// The status mapping is total: every JSON rejection carries exactly one
/// of the three failure statuses.
pub proof fn lemma_json_status_total(r: JsonRejection)
    ensures
        spec_json_status(r) == 400 || spec_json_status(r) == 415 || spec_json_status(r) == 422,
{
}

/// The guard runs at most once per request: a machine whose head has been
/// consumed by an earlier resumption can never again produce a
/// content-type rejection, since its guard phase always accepts.
pub proof fn lemma_json_guard_runs_once<T>(fut: JsonExtractFut<T>)
    requires
        fut.pending_head() is None,
    ensures
        fut.guard_outcome() == CtVerdict::Accepted,
{
}

/// A request without a `Content-Type` header is rejected as missing,
/// whatever its body holds, and that rejection maps to status 415.
pub proof fn lemma_json_missing_content_type()
    ensures
        json_verdict(Option::None) == CtVerdict::MissingContentType,
        spec_json_status(JsonRejection::MissingContentType) == 415,
{
}

/// A request whose `Content-Type` header is not the JSON media type is
/// rejected as invalid, even when its body would decode, and that rejection
/// maps to status 415.
pub proof fn lemma_json_invalid_content_type(ct: Seq<u8>)
    requires
        ct != json_media_type(),
    ensures
        json_verdict(Option::Some(ct)) == CtVerdict::InvalidContentType,
        spec_json_status(JsonRejection::InvalidContentType) == 415,
{
}

/// A body the codec cannot decode terminates the extraction with the decode
/// rejection carrying the codec's report, and that rejection maps to
/// status 422.
pub proof fn lemma_json_decode_failure<T>(e: facet_format::DeserializeError)
    ensures
        spec_finish_json_decode::<T>(Result::Err(e)) == Result::<Json<T>, JsonRejection>::Err(
            JsonRejection::Deserialize(e),
        ),
        spec_json_status(JsonRejection::Deserialize(e)) == 422,
{
}

} // verus!
