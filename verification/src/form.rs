//! The form format: typed wrapper, rejection and extraction state machine
//! for URL-encoded (and multipart-declared) submissions.

use core::marker::PhantomData;

use vstd::prelude::*;
use vstd::string::StringExecFns;
use vstd::utf8::valid_utf8;

use crate::media::{
    check_form_content_type, form_verdict, multipart_media_type, opt_bytes_view,
    urlencoded_media_type, CtVerdict,
};
use crate::outside::{bytes_as_str, urlencoded_error_text};
use crate::request::{BodyPoll, ExtractPoll, RequestHead};

verus! {

/// Typed wrapper around one form-decoded value. It owns its inner value and
/// has no representation of its own beyond it.
#[derive(Debug)]
pub struct Form<T>(pub T);

impl<T> Form<T> {
    /// Unwrap into inner `T` value.
    pub fn into_inner(self) -> (r: T)
        ensures
            r == self.0,
    {
        self.0
    }

    /// Borrow the inner value.
    pub fn inner(&self) -> (r: &T)
        ensures
            r == &self.0,
    {
        &self.0
    }

    /// Borrow the inner value mutably.
    pub fn inner_mut(&mut self) -> (r: &mut T)
        ensures
            *r == old(self).0,
            *final(self) == (Form(*final(r))),
    {
        &mut self.0
    }
}

/// Why a form extraction failed. Exactly one case holds, fixed at the point
/// of failure.
pub enum FormRejection {
    /// Failed to read the request body; carries the transport error's text.
    Body(String),
    /// Failed to deserialize the form data; carries the decoder's report.
    Deserialize(facet_urlencoded::UrlEncodedError),
    /// Missing `Content-Type: x-www-form-urlencoded` header.
    MissingContentType,
    /// Invalid `Content-Type` header (not x-www-form-urlencoded).
    InvalidContentType,
}

/// The HTTP status each form rejection maps to.
pub open spec fn spec_form_status(r: FormRejection) -> u16 {
    match r {
        FormRejection::Body(_) => 400,
        FormRejection::Deserialize(_) => 422,
        FormRejection::MissingContentType => 415,
        FormRejection::InvalidContentType => 415,
    }
}

impl FormRejection {
    /// The HTTP status code this rejection is rendered with.
    pub fn status_code(&self) -> (s: u16)
        ensures
            s == spec_form_status(*self),
    {
        match self {
            FormRejection::Body(_) => 400,
            FormRejection::Deserialize(_) => 422,
            FormRejection::MissingContentType => 415,
            FormRejection::InvalidContentType => 415,
        }
    }

    /// The human-readable line this rejection is rendered with.
    pub fn message(&self) -> (m: String)
        ensures
            match *self {
                FormRejection::Body(t) => m@ == "Failed to read request body: "@ + t@,
                FormRejection::Deserialize(_) => exists|d: Seq<char>|
                    m@ == "Failed to deserialize form: "@ + d,
                FormRejection::MissingContentType => m@
                    == "Missing `Content-Type: x-www-form-urlencoded` header"@,
                FormRejection::InvalidContentType => m@
                    == "Invalid `Content-Type` header: expected `x-www-form-urlencoded`"@,
            },
    {
        match self {
            FormRejection::Body(t) => {
                String::from_str("Failed to read request body: ").concat(t.as_str())
            },
            FormRejection::Deserialize(e) => {
                let text = urlencoded_error_text(e);
                let m = String::from_str("Failed to deserialize form: ").concat(text.as_str());
                proof {
                    assert(m@ == "Failed to deserialize form: "@ + text@);
                }
                m
            },
            FormRejection::MissingContentType => {
                String::from_str("Missing `Content-Type: x-www-form-urlencoded` header")
            },
            FormRejection::InvalidContentType => {
                String::from_str("Invalid `Content-Type` header: expected `x-www-form-urlencoded`")
            },
        }
    }
}

/// Relies on `facet_urlencoded::from_str_owned`: parses URL-encoded form
/// data into `T`, or reports the parse failure as a structured error.
#[verifier::external_body]
fn decode_form<T: facet::Facet<'static>>(body: &str) -> Result<
    T,
    facet_urlencoded::UrlEncodedError,
> {
    facet_urlencoded::from_str_owned(body)
}

/// How a decode outcome becomes the extraction's terminal result: success is
/// wrapped, failure becomes the decode rejection.
pub open spec fn spec_finish_form_decode<T>(
    d: Result<T, facet_urlencoded::UrlEncodedError>,
) -> Result<Form<T>, FormRejection> {
    match d {
        Result::Ok(v) => Result::Ok(Form(v)),
        Result::Err(e) => Result::Err(FormRejection::Deserialize(e)),
    }
}

/// Wrap a decode outcome for handler consumption. Verified for every
/// possible outcome of the codec's decode.
pub fn finish_form_decode<T>(d: Result<T, facet_urlencoded::UrlEncodedError>) -> (out: Result<
    Form<T>,
    FormRejection,
>)
    ensures
        out == spec_finish_form_decode(d),
{
    match d {
        Result::Ok(v) => Result::Ok(Form(v)),
        Result::Err(e) => Result::Err(FormRejection::Deserialize(e)),
    }
}

/// The form extraction state machine. It holds the request head until the
/// guard has run once; every later resumption goes straight to the body.
pub struct FormExtractFut<T> {
    head: Option<RequestHead>,
    marker: PhantomData<T>,
}

impl<T> FormExtractFut<T> {
    /// The head still awaiting its guard check, as the header's view.
    pub closed spec fn pending_head(&self) -> Option<Option<Seq<u8>>> {
        match self.head {
            Option::None => Option::None,
            Option::Some(h) => Option::Some(opt_bytes_view(h.content_type)),
        }
    }

    /// The verdict the guard phase of the next resumption produces: the
    /// header's verdict on the first resumption, `Accepted` afterwards,
    /// since the guard never re-runs.
    pub open spec fn guard_outcome(&self) -> CtVerdict {
        match self.pending_head() {
            Option::Some(ct) => form_verdict(ct),
            Option::None => CtVerdict::Accepted,
        }
    }

    /// Begin an extraction for a request whose `Content-Type` header holds
    /// the given bytes (or is absent).
    pub fn new(content_type: Option<Vec<u8>>) -> (r: Self)
        ensures
            r.pending_head() == Option::Some(opt_bytes_view(content_type)),
    {
        FormExtractFut { head: Option::Some(RequestHead { content_type }), marker: PhantomData }
    }

    /// Whether the guard still has to run, that is, whether no resumption
    /// has happened yet.
    pub fn guard_pending(&self) -> (b: bool)
        ensures
            b == (self.pending_head() is Some),
    {
        self.head.is_some()
    }
}

impl<T: facet::Facet<'static>> FormExtractFut<T> {
    /// One resumption of the extraction: run the guard if it has not run
    /// yet, then follow the body read. A guard failure is terminal before
    /// any body byte is interpreted; a completed body is taken as UTF-8
    /// text and decoded at once, and a body that is not valid UTF-8 counts
    /// as a failed body read.
    pub fn poll(&mut self, body: BodyPoll) -> (r: ExtractPoll<Form<T>, FormRejection>)
        ensures
            final(self).pending_head() is None,
            old(self).guard_outcome() == CtVerdict::MissingContentType ==> r == ExtractPoll::<
                Form<T>,
                FormRejection,
            >::Ready(Result::Err(FormRejection::MissingContentType)),
            old(self).guard_outcome() == CtVerdict::InvalidContentType ==> r == ExtractPoll::<
                Form<T>,
                FormRejection,
            >::Ready(Result::Err(FormRejection::InvalidContentType)),
            old(self).guard_outcome() == CtVerdict::Accepted ==> match body {
                BodyPoll::Pending => r == ExtractPoll::<Form<T>, FormRejection>::Pending,
                BodyPoll::Failure(t) => r == ExtractPoll::<Form<T>, FormRejection>::Ready(
                    Result::Err(FormRejection::Body(t)),
                ),
                BodyPoll::Payload(b) => {
                    &&& !valid_utf8(b@) ==> (r matches ExtractPoll::Ready(res) && (res
                        matches Result::Err(FormRejection::Body(t)) && t@
                        == "request body is not valid UTF-8"@))
                    &&& valid_utf8(b@) ==> exists|
                        d: Result<T, facet_urlencoded::UrlEncodedError>,
                    | r == ExtractPoll::<Form<T>, FormRejection>::Ready(spec_finish_form_decode(d))
                },
            },
    {
        let verdict = match &self.head {
            Option::Some(h) => check_form_content_type(&h.content_type),
            Option::None => CtVerdict::Accepted,
        };
        self.head = Option::None;
        match verdict {
            CtVerdict::MissingContentType => {
                return ExtractPoll::Ready(Result::Err(FormRejection::MissingContentType));
            },
            CtVerdict::InvalidContentType => {
                return ExtractPoll::Ready(Result::Err(FormRejection::InvalidContentType));
            },
            CtVerdict::Accepted => {},
        }
        match body {
            BodyPoll::Pending => ExtractPoll::Pending,
            BodyPoll::Failure(t) => ExtractPoll::Ready(Result::Err(FormRejection::Body(t))),
            BodyPoll::Payload(b) => {
                match bytes_as_str(b.as_slice()) {
                    Option::None => ExtractPoll::Ready(Result::Err(FormRejection::Body(
                        String::from_str("request body is not valid UTF-8"),
                    ))),
                    Option::Some(s) => {
                        let d = decode_form::<T>(s);
                        let ghost gd = d;
                        let out = finish_form_decode(d);
                        let r = ExtractPoll::Ready(out);
                        proof {
                            assert(r == ExtractPoll::<Form<T>, FormRejection>::Ready(
                                spec_finish_form_decode(gd),
                            ));
                        }
                        r
                    },
                }
            },
        }
    }
}

/// The status mapping is total: every form rejection carries exactly one
/// of the three failure statuses.
pub proof fn lemma_form_status_total(r: FormRejection)
    ensures
        spec_form_status(r) == 400 || spec_form_status(r) == 415 || spec_form_status(r) == 422,
{
}

/// The guard runs at most once per request: a machine whose head has been
/// consumed by an earlier resumption can never again produce a
/// content-type rejection, since its guard phase always accepts.
pub proof fn lemma_form_guard_runs_once<T>(fut: FormExtractFut<T>)
    requires
        fut.pending_head() is None,
    ensures
        fut.guard_outcome() == CtVerdict::Accepted,
{
}

/// A request without a `Content-Type` header is rejected as missing,
/// whatever its body holds, and that rejection maps to status 415.
pub proof fn lemma_form_missing_content_type()
    ensures
        form_verdict(Option::None) == CtVerdict::MissingContentType,
        spec_form_status(FormRejection::MissingContentType) == 415,
{
}

/// A request whose `Content-Type` header starts with neither accepted
/// prefix is rejected as invalid, even when its body would decode, and that
/// rejection maps to status 415.
pub proof fn lemma_form_invalid_content_type(ct: Seq<u8>)
    requires
        !urlencoded_media_type().is_prefix_of(ct),
        !multipart_media_type().is_prefix_of(ct),
    ensures
        form_verdict(Option::Some(ct)) == CtVerdict::InvalidContentType,
        spec_form_status(FormRejection::InvalidContentType) == 415,
{
}

/// A body the codec cannot decode terminates the extraction with the decode
/// rejection carrying the codec's report, and that rejection maps to
/// status 422.
pub proof fn lemma_form_decode_failure<T>(e: facet_urlencoded::UrlEncodedError)
    ensures
        spec_finish_form_decode::<T>(Result::Err(e)) == Result::<Form<T>, FormRejection>::Err(
            FormRejection::Deserialize(e),
        ),
        spec_form_status(FormRejection::Deserialize(e)) == 422,
{
}

} // verus!
