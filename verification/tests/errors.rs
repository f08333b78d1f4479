use cloud_upload::error::{ErrorKind, UploadError};

#[test]
fn no_content_message_and_kind() {
    let e = UploadError::NoContent;
    assert_eq!(e.kind(), ErrorKind::InvalidInput);
    assert_eq!(e.message(), "no upload content provided");
}

#[test]
fn malformed_base64_message_and_kind() {
    let e = UploadError::MalformedBase64;
    assert_eq!(e.kind(), ErrorKind::InvalidInput);
    assert_eq!(e.message(), "decode failed");
}

#[test]
fn read_failed_message_and_kind() {
    let e = UploadError::ReadFailed { details: "No such file or directory (os error 2)".to_string() };
    assert_eq!(e.kind(), ErrorKind::IoError);
    assert_eq!(e.message(), "read failed: No such file or directory (os error 2)");
}

#[test]
fn bad_address_message_and_kind() {
    let e = UploadError::BadAddress { details: "empty host".to_string() };
    assert_eq!(e.kind(), ErrorKind::InvalidInput);
    assert_eq!(e.message(), "empty host");
}

#[test]
fn bad_secret_message_and_kind() {
    let e = UploadError::BadSecret;
    assert_eq!(e.kind(), ErrorKind::CredentialError);
    assert_eq!(e.message(), "AccessKeySecret invalid");
}

#[test]
fn r2_failed_message_and_kind() {
    let e = UploadError::R2Failed { details: "dispatch failure".to_string() };
    assert_eq!(e.kind(), ErrorKind::TransportError);
    assert_eq!(e.message(), "R2 upload failed: dispatch failure");
}

#[test]
fn oss_unreachable_message_and_kind() {
    let e = UploadError::OssUnreachable { details: "dns error".to_string() };
    assert_eq!(e.kind(), ErrorKind::TransportError);
    assert_eq!(e.message(), "Aliyun upload request failed: dns error");
}

#[test]
fn oss_rejected_message_and_kind() {
    let e = UploadError::OssRejected { status: 403, body: "AccessDenied".to_string() };
    assert_eq!(e.kind(), ErrorKind::ProviderError);
    assert_eq!(e.message(), "Aliyun upload failed: 403 AccessDenied");
}

#[test]
fn oss_rejected_with_empty_body() {
    let e = UploadError::OssRejected { status: 500, body: String::new() };
    assert_eq!(e.message(), "Aliyun upload failed: 500 ");
}
