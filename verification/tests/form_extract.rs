use std::collections::BTreeMap;

use facet_actix::form::{Form, FormExtractFut, FormRejection};
use facet_actix::media::{check_form_content_type, CtVerdict};
use facet_actix::request::{BodyPoll, ExtractPoll};

fn form_ct() -> Option<Vec<u8>> {
    Some(b"application/x-www-form-urlencoded".to_vec())
}

#[test]
fn form_missing_content_type_rejected_before_body() {
    let mut fut = FormExtractFut::<u64>::new(None);
    match fut.poll(BodyPoll::Pending) {
        ExtractPoll::Ready(Err(FormRejection::MissingContentType)) => {}
        _ => panic!("expected MissingContentType"),
    }
    let rej = FormRejection::MissingContentType;
    assert_eq!(rej.status_code(), 415);
    assert_eq!(
        rej.message(),
        "Missing `Content-Type: x-www-form-urlencoded` header"
    );
}

#[test]
fn form_invalid_content_type_rejected() {
    let mut fut = FormExtractFut::<u64>::new(Some(b"application/json".to_vec()));
    match fut.poll(BodyPoll::Payload(b"a=1".to_vec())) {
        ExtractPoll::Ready(Err(FormRejection::InvalidContentType)) => {}
        _ => panic!("expected InvalidContentType"),
    }
    let rej = FormRejection::InvalidContentType;
    assert_eq!(rej.status_code(), 415);
    assert_eq!(
        rej.message(),
        "Invalid `Content-Type` header: expected `x-www-form-urlencoded`"
    );
}

#[test]
fn form_content_type_matches_by_prefix() {
    // Both accepted media types match as prefixes, so parameter suffixes
    // are accepted too.
    assert_eq!(
        check_form_content_type(&Some(b"application/x-www-form-urlencoded".to_vec())),
        CtVerdict::Accepted
    );
    assert_eq!(
        check_form_content_type(&Some(
            b"application/x-www-form-urlencoded; charset=utf-8".to_vec()
        )),
        CtVerdict::Accepted
    );
    assert_eq!(
        check_form_content_type(&Some(b"multipart/form-data; boundary=xyz".to_vec())),
        CtVerdict::Accepted
    );
    assert_eq!(
        check_form_content_type(&Some(b"text/plain".to_vec())),
        CtVerdict::InvalidContentType
    );
    assert_eq!(check_form_content_type(&None), CtVerdict::MissingContentType);
}

#[test]
fn form_guard_verdict_is_stable_across_repeated_checks() {
    let header = Some(b"multipart/form-data; boundary=xyz".to_vec());
    assert_eq!(
        check_form_content_type(&header),
        check_form_content_type(&header)
    );
}

#[test]
fn invalid_utf8_body_counts_as_body_failure() {
    let mut fut = FormExtractFut::<u64>::new(form_ct());
    match fut.poll(BodyPoll::Payload(vec![0xff, 0xfe, b'a'])) {
        ExtractPoll::Ready(Err(rej @ FormRejection::Body(_))) => {
            assert_eq!(rej.status_code(), 400);
            assert_eq!(
                rej.message(),
                "Failed to read request body: request body is not valid UTF-8"
            );
        }
        _ => panic!("expected Body rejection"),
    }
}

#[test]
fn undecodable_body_is_decode_failure() {
    // The form codec cannot fill this target from the submission, so the
    // extraction ends with the decode rejection.
    let mut fut = FormExtractFut::<BTreeMap<String, String>>::new(form_ct());
    match fut.poll(BodyPoll::Payload(b"a=1&b=2".to_vec())) {
        ExtractPoll::Ready(Err(rej @ FormRejection::Deserialize(_))) => {
            assert_eq!(rej.status_code(), 422);
            assert!(rej.message().starts_with("Failed to deserialize form: "));
        }
        _ => panic!("expected Deserialize rejection"),
    }
}

#[test]
fn form_body_read_failure_maps_to_bad_request() {
    let mut fut = FormExtractFut::<u64>::new(form_ct());
    match fut.poll(BodyPoll::Failure("timed out".to_string())) {
        ExtractPoll::Ready(Err(rej @ FormRejection::Body(_))) => {
            assert_eq!(rej.status_code(), 400);
            assert_eq!(rej.message(), "Failed to read request body: timed out");
        }
        _ => panic!("expected Body rejection"),
    }
}

#[test]
fn pending_body_suspends_without_verdict() {
    let mut fut = FormExtractFut::<u64>::new(form_ct());
    match fut.poll(BodyPoll::Pending) {
        ExtractPoll::Pending => {}
        _ => panic!("expected Pending"),
    }
}

#[test]
fn form_wrapper_is_transparent() {
    let mut f = Form("x".to_string());
    assert_eq!(f.inner(), "x");
    f.inner_mut().push('y');
    assert_eq!(f.into_inner(), "xy");
}
