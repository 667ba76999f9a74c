use dtqs::json::Json;
use dtqs::validate::{validate_payload, ValidationError};

fn email_payload(from: &str, to: &str, subject: Option<&str>, content: &str) -> Json {
    let mut fields: Vec<(String, Json)> = vec![
        ("from".to_string(), Json::Str(from.to_string())),
        ("to".to_string(), Json::Str(to.to_string())),
    ];
    if let Some(s) = subject {
        fields.push(("subject".to_string(), Json::Str(s.to_string())));
    }
    fields.push(("content".to_string(), Json::Str(content.to_string())));
    Json::Obj(fields)
}

#[test]
fn accepts_well_formed_email() {
    let payload = email_payload("a@x", "b@x", Some("hi"), "ok");
    let r = validate_payload(&"email".to_string(), &payload);
    assert!(r.is_ok());
}

#[test]
fn rejects_email_missing_subject() {
    let payload = email_payload("a@x", "b@x", None, "ok");
    let r = validate_payload(&"email".to_string(), &payload);
    let e = r.unwrap_err();
    assert_eq!(e.message().as_str(), "Missing field 'subject'");
}

#[test]
fn rejects_email_with_unsafe_content() {
    let payload = email_payload("a@x", "b@x", Some("hi"), "<script>");
    let r = validate_payload(&"email".to_string(), &payload);
    let e = r.unwrap_err();
    assert_eq!(e.message().as_str(), "Invalid or unsafe value for field 'content'");
}

#[test]
fn rejects_email_with_non_string_field() {
    let payload = Json::Obj(vec![
        ("from".to_string(), Json::UInt(3)),
        ("to".to_string(), Json::Str("b@x".to_string())),
        ("subject".to_string(), Json::Str("hi".to_string())),
        ("content".to_string(), Json::Str("ok".to_string())),
    ]);
    let r = validate_payload(&"email".to_string(), &payload);
    assert_eq!(r.unwrap_err().message().as_str(), "Invalid or unsafe value for field 'from'");
}

#[test]
fn rejects_email_with_empty_field() {
    let payload = email_payload("a@x", "b@x", Some(""), "ok");
    let r = validate_payload(&"email".to_string(), &payload);
    assert_eq!(r.unwrap_err().message().as_str(), "Invalid or unsafe value for field 'subject'");
}

#[test]
fn rejects_unsupported_task_type() {
    let payload = Json::Obj(vec![]);
    let r = validate_payload(&"audio".to_string(), &payload);
    let e = r.unwrap_err();
    assert!(matches!(e, ValidationError::UnsupportedTaskType));
    assert_eq!(e.message().as_str(), "Unsupported task type");
}

#[test]
fn accepts_image_with_src_and_resize_factor() {
    let payload = Json::Obj(vec![
        ("img_src".to_string(), Json::Str("photo.png".to_string())),
        ("resize_factor".to_string(), Json::OtherNum),
    ]);
    assert!(validate_payload(&"image".to_string(), &payload).is_ok());
}

#[test]
fn rejects_image_missing_resize_factor() {
    let payload = Json::Obj(vec![("img_src".to_string(), Json::Str("photo.png".to_string()))]);
    let r = validate_payload(&"image".to_string(), &payload);
    assert_eq!(r.unwrap_err().message().as_str(), "Missing field 'resize_factor'");
}

#[test]
fn rejects_image_with_unsafe_src() {
    let payload = Json::Obj(vec![
        ("img_src".to_string(), Json::Str("a;rm -rf /".to_string())),
        ("resize_factor".to_string(), Json::UInt(2)),
    ]);
    let r = validate_payload(&"image".to_string(), &payload);
    assert_eq!(r.unwrap_err().message().as_str(), "Invalid or unsafe value for field 'img_src'");
}

#[test]
fn rejects_video_missing_vid_src() {
    let payload = Json::Obj(vec![("resize_factor".to_string(), Json::UInt(2))]);
    let r = validate_payload(&"video".to_string(), &payload);
    assert_eq!(r.unwrap_err().message().as_str(), "Missing field 'vid_src'");
}

#[test]
fn accepts_video_with_src_and_resize_factor() {
    let payload = Json::Obj(vec![
        ("vid_src".to_string(), Json::Str("clip.mp4".to_string())),
        ("resize_factor".to_string(), Json::UInt(2)),
    ]);
    assert!(validate_payload(&"video".to_string(), &payload).is_ok());
}

#[test]
fn safe_text_allows_the_documented_class() {
    let payload = email_payload("a b.c,d@e!f?g-h_1", "b@x", Some("hi"), "ok");
    assert!(validate_payload(&"email".to_string(), &payload).is_ok());
}
