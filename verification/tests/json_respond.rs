use std::collections::BTreeMap;

use facet_actix::json::{render_encoded, Json, JsonExtractFut};
use facet_actix::request::{BodyPoll, ExtractPoll};

#[test]
fn respond_success_carries_json_media_type() {
    let mut v: BTreeMap<String, u64> = BTreeMap::new();
    v.insert("a".to_string(), 1);
    v.insert("b".to_string(), 2);
    let parts = Json(v).respond();
    assert_eq!(parts.status, 200);
    assert_eq!(parts.content_type.as_deref(), Some(&b"application/json"[..]));
    assert_eq!(parts.body, r#"{"a":1,"b":2}"#);
}

#[test]
fn round_trip_decode_of_encode() {
    let mut v: BTreeMap<String, u64> = BTreeMap::new();
    v.insert("min".to_string(), 1);
    v.insert("max".to_string(), 5);
    let parts = Json(v.clone()).respond();
    assert_eq!(parts.status, 200);

    // The encoded body re-decodes, through the extractor, to an equal value.
    let mut fut =
        JsonExtractFut::<BTreeMap<String, u64>>::new(Some(b"application/json".to_vec()));
    match fut.poll(BodyPoll::Payload(parts.body.into_bytes())) {
        ExtractPoll::Ready(Ok(json)) => assert_eq!(json.into_inner(), v),
        _ => panic!("expected the encoded body to decode"),
    }
}

#[test]
fn round_trip_scalar_and_vector() {
    let n: u64 = 9007;
    let parts = Json(n).respond();
    let mut fut = JsonExtractFut::<u64>::new(Some(b"application/json".to_vec()));
    match fut.poll(BodyPoll::Payload(parts.body.into_bytes())) {
        ExtractPoll::Ready(Ok(json)) => assert_eq!(json.into_inner(), n),
        _ => panic!("expected the encoded number to decode"),
    }

    let xs: Vec<String> = vec!["one".to_string(), "two".to_string()];
    let parts = Json(xs.clone()).respond();
    let mut fut = JsonExtractFut::<Vec<String>>::new(Some(b"application/json".to_vec()));
    match fut.poll(BodyPoll::Payload(parts.body.into_bytes())) {
        ExtractPoll::Ready(Ok(json)) => assert_eq!(json.into_inner(), xs),
        _ => panic!("expected the encoded vector to decode"),
    }
}

#[test]
fn render_encoded_failure_is_server_error() {
    let err = facet_format::SerializeError::<facet_json::JsonSerializeError>::Unsupported(
        std::borrow::Cow::Borrowed("value cannot be represented"),
    );
    let parts = render_encoded(Err(err));
    assert_eq!(parts.status, 500);
    assert_eq!(parts.content_type, None);
    assert_eq!(parts.body, "value cannot be represented");
}

#[test]
fn wrapper_is_transparent() {
    let mut j = Json(10u64);
    assert_eq!(*j.inner(), 10);
    *j.inner_mut() = 11;
    assert_eq!(j.into_inner(), 11);
}
