use gql_gateway::simdjson::{
    optional_body_action, rejection_for, response_status, BodyAction,
    decode_error_kind, is_json_media_type, json_content_type, DecodeErrorKind, SimdJson,
    SimdJsonRejection,
};

#[test]
fn json_content_types_are_recognised() {
    assert!(json_content_type(Some("application/json")));
    assert!(json_content_type(Some("application/json; charset=utf-8")));
    assert!(json_content_type(Some("application/vnd.api+json")));
    assert!(json_content_type(Some("Application/JSON")));
}

#[test]
fn other_content_types_are_refused() {
    assert!(!json_content_type(None));
    assert!(!json_content_type(Some("text/plain")));
    assert!(!json_content_type(Some("application/xml")));
    assert!(!json_content_type(Some("json")));
    assert!(!json_content_type(Some("text/json")));
}

#[test]
fn media_type_parts_decide() {
    assert!(is_json_media_type("application", "json", None));
    assert!(is_json_media_type("application", "ld", Some("json")));
    assert!(!is_json_media_type("application", "ld", Some("xml")));
    assert!(!is_json_media_type("text", "json", None));
}

#[test]
fn decode_error_kinds() {
    assert_eq!(decode_error_kind(true, false, false), DecodeErrorKind::Syntax);
    assert_eq!(decode_error_kind(false, true, false), DecodeErrorKind::Syntax);
    assert_eq!(decode_error_kind(false, false, true), DecodeErrorKind::Data);
    assert_eq!(decode_error_kind(false, false, false), DecodeErrorKind::Syntax);
}

#[test]
fn body_is_decoded() {
    let v = SimdJson::<Vec<u32>>::from_bytes(b"[1, 2, 3]").ok().unwrap();
    assert_eq!(v.0, vec![1, 2, 3]);
}

#[test]
fn broken_body_is_a_syntax_error() {
    let r = SimdJson::<Vec<u32>>::from_bytes(b"[1, 2,,]");
    let e = r.err().unwrap();
    assert!(matches!(e, SimdJsonRejection::JsonSyntaxError(_)));
    assert_eq!(e.status(), Some(400));
}

#[test]
fn wrong_shape_is_a_data_error() {
    let r = SimdJson::<Vec<u32>>::from_bytes(b"\"x\"");
    let e = r.err().unwrap();
    assert!(matches!(e, SimdJsonRejection::JsonDataError(_)));
}

#[test]
fn missing_content_type_status() {
    assert_eq!(SimdJsonRejection::MissingJsonContentType.status(), Some(415));
}

#[test]
fn wrapped_value_from() {
    let v: SimdJson<u8> = SimdJson::from(7u8);
    assert_eq!(v.0, 7);
}

fn some_error() -> simd_json::Error {
    let mut bytes = b"[1,".to_vec();
    simd_json::from_slice::<Vec<u32>>(&mut bytes).err().unwrap()
}

#[test]
fn rejection_follows_the_flags() {
    assert!(matches!(rejection_for(some_error(), true, false, false), SimdJsonRejection::JsonSyntaxError(_)));
    assert!(matches!(rejection_for(some_error(), false, true, true), SimdJsonRejection::JsonSyntaxError(_)));
    assert!(matches!(rejection_for(some_error(), false, false, true), SimdJsonRejection::JsonDataError(_)));
    assert!(matches!(rejection_for(some_error(), false, false, false), SimdJsonRejection::JsonSyntaxError(_)));
}

#[test]
fn optional_body_actions() {
    assert_eq!(optional_body_action(false, None), BodyAction::Absent);
    assert_eq!(optional_body_action(true, None), BodyAction::Reject);
    assert_eq!(optional_body_action(true, Some("text/html")), BodyAction::Reject);
    assert_eq!(optional_body_action(true, Some("application/json")), BodyAction::Decode);
}

#[test]
fn response_statuses() {
    assert_eq!(response_status(true), 200);
    assert_eq!(response_status(false), 500);
}
