use cloud_upload::error::{ErrorKind, UploadError};
use cloud_upload::payload::{
    decoded_payload, file_payload, resolve_source, select_source, PayloadSource, Resolution,
};

fn text(s: &str) -> Option<String> {
    Some(s.to_string())
}

#[test]
fn file_path_alone_is_chosen() {
    assert_eq!(
        select_source(text("/tmp/a.png"), None, None),
        Ok(PayloadSource::FilePath("/tmp/a.png".to_string()))
    );
}

#[test]
fn base64_alone_is_chosen() {
    assert_eq!(
        select_source(None, text("aGVsbG8="), None),
        Ok(PayloadSource::Base64Body("aGVsbG8=".to_string()))
    );
}

#[test]
fn raw_body_alone_is_chosen() {
    assert_eq!(select_source(None, None, Some(vec![1, 2, 3])), Ok(PayloadSource::RawBody(vec![1, 2, 3])));
}

#[test]
fn file_path_wins_over_both_others() {
    assert_eq!(
        select_source(text("a.bin"), text("aGVsbG8="), Some(vec![9])),
        Ok(PayloadSource::FilePath("a.bin".to_string()))
    );
    assert_eq!(
        select_source(text("a.bin"), None, Some(vec![9])),
        Ok(PayloadSource::FilePath("a.bin".to_string()))
    );
}

#[test]
fn base64_wins_over_raw_body() {
    assert_eq!(
        select_source(None, text("aGVsbG8="), Some(vec![9])),
        Ok(PayloadSource::Base64Body("aGVsbG8=".to_string()))
    );
}

#[test]
fn empty_file_path_counts_as_absent() {
    assert_eq!(
        select_source(text(""), text("aGVsbG8="), None),
        Ok(PayloadSource::Base64Body("aGVsbG8=".to_string()))
    );
    assert_eq!(select_source(text(""), None, Some(vec![7])), Ok(PayloadSource::RawBody(vec![7])));
    assert_eq!(select_source(text(""), None, None), Err(UploadError::NoContent));
}

#[test]
fn white_space_file_path_counts_as_absent() {
    assert_eq!(
        select_source(text("  \t\n"), text("aGVsbG8="), Some(vec![7])),
        Ok(PayloadSource::Base64Body("aGVsbG8=".to_string()))
    );
    assert_eq!(select_source(text("   "), None, None), Err(UploadError::NoContent));
}

#[test]
fn file_path_with_inner_text_is_kept_untrimmed() {
    assert_eq!(
        select_source(text(" a.bin "), None, None),
        Ok(PayloadSource::FilePath(" a.bin ".to_string()))
    );
}

#[test]
fn empty_base64_text_is_still_a_source() {
    assert_eq!(
        select_source(None, text(""), Some(vec![7])),
        Ok(PayloadSource::Base64Body(String::new()))
    );
}

#[test]
fn empty_raw_body_is_still_a_source() {
    assert_eq!(select_source(None, None, Some(vec![])), Ok(PayloadSource::RawBody(vec![])));
}

#[test]
fn no_source_is_no_content() {
    let e = select_source(None, None, None).unwrap_err();
    assert_eq!(e, UploadError::NoContent);
    assert_eq!(e.kind(), ErrorKind::InvalidInput);
    assert_eq!(e.message(), "no upload content provided");
}

#[test]
fn file_path_resolves_to_a_read() {
    assert_eq!(
        resolve_source(PayloadSource::FilePath("/tmp/a.png".to_string())),
        Ok(Resolution::ReadFile("/tmp/a.png".to_string()))
    );
}

#[test]
fn base64_resolves_to_its_bytes() {
    assert_eq!(
        resolve_source(PayloadSource::Base64Body("aGVsbG8gd29ybGQ=".to_string())),
        Ok(Resolution::Ready(b"hello world".to_vec()))
    );
    assert_eq!(
        resolve_source(PayloadSource::Base64Body("AP8QIA==".to_string())),
        Ok(Resolution::Ready(vec![0, 255, 16, 32]))
    );
}

#[test]
fn empty_base64_resolves_to_no_bytes() {
    assert_eq!(resolve_source(PayloadSource::Base64Body(String::new())), Ok(Resolution::Ready(vec![])));
}

#[test]
fn raw_body_resolves_to_itself() {
    assert_eq!(resolve_source(PayloadSource::RawBody(vec![5, 6])), Ok(Resolution::Ready(vec![5, 6])));
}

#[test]
fn malformed_base64_is_invalid_input() {
    for bad in ["not base64!", "aGVsbG8", "aGVsbG8==", "aGVs bG8=", "====", "aGVsbG8gd29ybGQ=x", "a"] {
        let e = resolve_source(PayloadSource::Base64Body(bad.to_string())).unwrap_err();
        assert_eq!(e, UploadError::MalformedBase64, "{:?}", bad);
        assert_eq!(e.kind(), ErrorKind::InvalidInput);
        assert_eq!(e.message(), "decode failed");
    }
}

#[test]
fn url_safe_alphabet_is_refused() {
    assert_eq!(
        resolve_source(PayloadSource::Base64Body("_-8=".to_string())),
        Err(UploadError::MalformedBase64)
    );
    assert_eq!(
        resolve_source(PayloadSource::Base64Body("/+8=".to_string())),
        Ok(Resolution::Ready(vec![0xFF, 0xEF]))
    );
}

#[test]
fn decoded_payload_of_each_outcome() {
    assert_eq!(decoded_payload(Some(vec![1, 2])), Ok(Resolution::Ready(vec![1, 2])));
    assert_eq!(decoded_payload(Some(vec![])), Ok(Resolution::Ready(vec![])));
    assert_eq!(decoded_payload(None), Err(UploadError::MalformedBase64));
}

#[test]
fn file_contents_become_the_payload() {
    assert_eq!(file_payload(Ok(vec![1, 2, 3])), Ok(vec![1, 2, 3]));
    assert_eq!(file_payload(Ok(vec![])), Ok(vec![]));
}

#[test]
fn failed_read_is_an_io_error() {
    let e = file_payload(Err("permission denied".to_string())).unwrap_err();
    assert_eq!(e, UploadError::ReadFailed { details: "permission denied".to_string() });
    assert_eq!(e.kind(), ErrorKind::IoError);
    assert_eq!(e.message(), "read failed: permission denied");
}
