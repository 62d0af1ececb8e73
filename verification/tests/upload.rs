use college_directory::errors::ApiError;
use college_directory::upload::{
    decode_upload, invalid_upload, is_file_field, missing_file, not_text, unreadable_file,
    upload_step, UploadStep,
};

#[test]
fn only_the_field_named_file_carries_the_file() {
    assert!(is_file_field("file"));
    assert!(!is_file_field("File"));
    assert!(!is_file_field("files"));
    assert!(!is_file_field(""));
}

#[test]
fn text_is_decoded() {
    let content = decode_upload("name,city\nCOEP,Pune\n".as_bytes().to_vec());
    assert_eq!(content, Ok("name,city\nCOEP,Pune\n".to_string()));
}

#[test]
fn text_beyond_ascii_is_decoded() {
    let content = decode_upload(vec![0xe0, 0xa4, 0xaa, 0xe0, 0xa5, 0x81, 0xe0, 0xa4, 0xa3, 0xe0, 0xa5, 0x87]);
    assert_eq!(content, Ok("पुणे".to_string()));
}

#[test]
fn empty_file_is_empty_text() {
    assert_eq!(decode_upload(Vec::new()), Ok(String::new()));
}

#[test]
fn bytes_that_are_not_text_are_a_bad_request() {
    let refused = decode_upload(vec![b'a', 0xff, b'b']);
    match refused {
        Err(ApiError::BadRequest(message)) => {
            assert!(message.starts_with("Invalid UTF-8 content: "));
            assert!(message.len() > "Invalid UTF-8 content: ".len());
        }
        other => panic!("unexpected {:?}", other),
    }
}

#[test]
fn truncated_character_is_a_bad_request() {
    let refused = decode_upload(vec![0xe0, 0xa4]);
    assert!(matches!(refused, Err(ApiError::BadRequest(_))));
    assert_eq!(refused.unwrap_err().status_code(), 400);
}

#[test]
fn upload_failures_are_bad_requests_with_their_detail() {
    assert_eq!(
        invalid_upload("boundary missing"),
        ApiError::BadRequest("Invalid file upload: boundary missing".to_string())
    );
    assert_eq!(
        unreadable_file("connection reset"),
        ApiError::BadRequest("Failed to read file: connection reset".to_string())
    );
    assert_eq!(
        not_text("invalid utf-8 sequence"),
        ApiError::BadRequest("Invalid UTF-8 content: invalid utf-8 sequence".to_string())
    );
    assert_eq!(missing_file(), ApiError::BadRequest("No file field in upload".to_string()));
    assert_eq!(missing_file().status_code(), 400);
}

#[test]
fn field_named_file_is_imported() {
    assert_eq!(upload_step(Some(Some("file"))), UploadStep::Import);
}

#[test]
fn other_fields_are_skipped() {
    assert_eq!(upload_step(Some(Some("comment"))), UploadStep::Skip);
    assert_eq!(upload_step(Some(Some("File"))), UploadStep::Skip);
    assert_eq!(upload_step(Some(Some(""))), UploadStep::Skip);
    assert_eq!(upload_step(Some(None)), UploadStep::Skip);
}

#[test]
fn upload_without_a_file_field_is_a_bad_request() {
    let step = upload_step(None);
    assert_eq!(
        step,
        UploadStep::Refuse(ApiError::BadRequest("No file field in upload".to_string()))
    );
    match step {
        UploadStep::Refuse(refusal) => assert_eq!(refusal.status_code(), 400),
        other => panic!("unexpected {:?}", other),
    }
}

#[test]
fn upload_is_walked_field_by_field() {
    // Two fields that do not carry the file, then the file.
    let names = [Some("note"), None, Some("file"), Some("file")];
    let mut steps = Vec::new();
    for name in names.iter() {
        let step = upload_step(Some(*name));
        let stop = step == UploadStep::Import;
        steps.push(step);
        if stop {
            break;
        }
    }
    assert_eq!(steps, vec![UploadStep::Skip, UploadStep::Skip, UploadStep::Import]);
    // Only fields that do not carry it, then the end.
    assert_eq!(upload_step(Some(Some("note"))), UploadStep::Skip);
    assert!(matches!(upload_step(None), UploadStep::Refuse(_)));
}
