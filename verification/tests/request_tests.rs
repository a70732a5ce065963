use gametorch::ClientError;
use gametorch::json::JsonValue;
use gametorch::request::build_request;

fn str_field(body: &JsonValue, key: &str) -> Option<String> {
    match body.get(key) {
        Some(JsonValue::Str(s)) => Some(s.clone()),
        _ => None,
    }
}

fn obj_len(body: &JsonValue) -> usize {
    match body {
        JsonValue::Obj(pairs) => pairs.len(),
        _ => usize::MAX,
    }
}

#[test]
fn build_request_rejects_bad_durations() {
    for duration in [0u32, 1, 4, 6, 7, 9, 11, 60, u32::MAX] {
        let r = build_request("a dragon", duration, None, None, None);
        assert_eq!(r, Err(ClientError::InvalidParameter));
    }
}

#[test]
fn build_request_rejects_conflicting_models() {
    for duration in [5u32, 10] {
        let r = build_request("a dragon", duration, None, Some(9), Some("alpha/v2.1"));
        assert_eq!(r, Err(ClientError::ConflictingParameter));
    }
}

#[test]
fn build_request_bad_duration_reported_before_conflict() {
    let r = build_request("a dragon", 7, None, Some(9), Some("alpha/v2.1"));
    assert_eq!(r, Err(ClientError::InvalidParameter));
}

#[test]
fn build_request_defaults_model_id() {
    let body = build_request("a dragon", 5, None, None, None).unwrap();
    assert_eq!(obj_len(&body), 4);
    assert_eq!(str_field(&body, "prompt"), Some("a dragon".to_string()));
    assert_eq!(body.int_field("duration_seconds"), Some(5));
    assert_eq!(str_field(&body, "input_image_base64"), Some(String::new()));
    assert_eq!(body.int_field("animation_model_id"), Some(6));
    assert!(body.get("animation_model_name").is_none());
}

#[test]
fn build_request_with_model_id() {
    let body = build_request("a knight", 10, None, Some(11), None).unwrap();
    assert_eq!(body.int_field("duration_seconds"), Some(10));
    assert_eq!(body.int_field("animation_model_id"), Some(11));
    assert!(body.get("animation_model_name").is_none());
}

#[test]
fn build_request_with_model_name() {
    let body = build_request("a knight", 5, None, None, Some("alpha/v2.1")).unwrap();
    assert_eq!(
        str_field(&body, "animation_model_name"),
        Some("alpha/v2.1".to_string())
    );
    assert!(body.get("animation_model_id").is_none());
}

#[test]
fn build_request_encodes_image() {
    let body = build_request("a dragon", 5, Some(b"hello".to_vec()), None, None).unwrap();
    assert_eq!(
        str_field(&body, "input_image_base64"),
        Some("aGVsbG8=".to_string())
    );
}

#[test]
fn build_request_accepts_empty_prompt() {
    let body = build_request("", 5, None, None, None).unwrap();
    assert_eq!(str_field(&body, "prompt"), Some(String::new()));
}

#[test]
fn build_request_encodes_empty_image() {
    let body = build_request("a dragon", 5, Some(Vec::new()), None, None).unwrap();
    assert_eq!(str_field(&body, "input_image_base64"), Some(String::new()));
}
