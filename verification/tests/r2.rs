use cloud_upload::error::{ErrorKind, UploadError};
use cloud_upload::r2::{
    conclude_r2_upload, content_type_to_attach, endpoint_for, prepare_r2_upload, R2Credentials,
};
use cloud_upload::UploadResult;

fn credentials() -> R2Credentials {
    R2Credentials {
        account_id: "abc123".to_string(),
        access_key_id: "AKID".to_string(),
        secret_access_key: "SECRET".to_string(),
    }
}

#[test]
fn endpoint_is_made_of_the_account_id() {
    assert_eq!(endpoint_for("abc123"), "https://abc123.r2.cloudflarestorage.com");
    assert_eq!(endpoint_for(""), "https://.r2.cloudflarestorage.com");
}

#[test]
fn r2_request_carries_what_was_given() {
    let r = prepare_r2_upload(
        credentials(),
        "photos".to_string(),
        "/2024/cat.png".to_string(),
        Some("image/png".to_string()),
        vec![1, 2, 3],
    );
    assert_eq!(r.endpoint, "https://abc123.r2.cloudflarestorage.com");
    assert_eq!(r.access_key_id, "AKID");
    assert_eq!(r.secret_access_key, "SECRET");
    assert_eq!(r.bucket, "photos");
    assert_eq!(r.key, "/2024/cat.png");
    assert_eq!(r.content_type, Some("image/png".to_string()));
    assert_eq!(r.body, vec![1, 2, 3]);
}

#[test]
fn r2_region_and_addressing_are_fixed() {
    let r = prepare_r2_upload(credentials(), "b".to_string(), "k".to_string(), None, vec![]);
    assert_eq!(r.region, "auto");
    assert!(r.force_path_style);
    assert_eq!(r.session_token, None);
    assert_eq!(r.provider_name, "r2-upload");
    let other = R2Credentials {
        account_id: "eu-west-1".to_string(),
        access_key_id: "x".to_string(),
        secret_access_key: "y".to_string(),
    };
    let r = prepare_r2_upload(other, "us-east-1".to_string(), "k".to_string(), None, vec![0]);
    assert_eq!(r.region, "auto");
    assert!(r.force_path_style);
}

#[test]
fn r2_omits_absent_content_type() {
    let r = prepare_r2_upload(credentials(), "b".to_string(), "k".to_string(), None, vec![]);
    assert_eq!(r.content_type, None);
}

#[test]
fn r2_omits_empty_content_type() {
    let r = prepare_r2_upload(credentials(), "b".to_string(), "k".to_string(), Some(String::new()), vec![]);
    assert_eq!(r.content_type, None);
    assert_eq!(content_type_to_attach(Some(String::new())), None);
    assert_eq!(content_type_to_attach(None), None);
    assert_eq!(content_type_to_attach(Some(" ".to_string())), Some(" ".to_string()));
}

#[test]
fn r2_success_echoes_the_key() {
    assert_eq!(
        conclude_r2_upload("/2024/cat.png".to_string(), Ok(())),
        Ok(UploadResult { key: "/2024/cat.png".to_string() })
    );
}

#[test]
fn r2_failure_is_wrapped() {
    let e = conclude_r2_upload("k".to_string(), Err("service error: NoSuchBucket".to_string())).unwrap_err();
    assert_eq!(e, UploadError::R2Failed { details: "service error: NoSuchBucket".to_string() });
    assert_eq!(e.kind(), ErrorKind::TransportError);
    assert_eq!(e.message(), "R2 upload failed: service error: NoSuchBucket");
}
