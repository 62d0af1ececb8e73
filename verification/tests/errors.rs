use college_directory::errors::{found_college, ApiError, ErrorBody, StorageFailure};

#[test]
fn each_kind_has_its_status() {
    assert_eq!(ApiError::DatabaseError("connection refused".to_string()).status_code(), 500);
    assert_eq!(ApiError::NotFound("gone".to_string()).status_code(), 404);
    assert_eq!(ApiError::BadRequest("bad".to_string()).status_code(), 400);
    assert_eq!(ApiError::InternalServerError("broken".to_string()).status_code(), 500);
}

#[test]
fn storage_detail_is_not_sent_to_the_caller() {
    let error = ApiError::DatabaseError("password authentication failed".to_string());
    assert_eq!(error.public_message(), "Database error occurred");
    assert_eq!(
        error.body(),
        ErrorBody { error: "Database error occurred".to_string(), status: 500 }
    );
}

#[test]
fn other_kinds_send_their_message() {
    assert_eq!(ApiError::NotFound("no such thing".to_string()).public_message(), "no such thing");
    assert_eq!(ApiError::BadRequest("bad page".to_string()).public_message(), "bad page");
    assert_eq!(
        ApiError::InternalServerError("broken".to_string()).body(),
        ErrorBody { error: "broken".to_string(), status: 500 }
    );
}

#[test]
fn missing_row_is_not_found() {
    assert_eq!(
        ApiError::from_storage(StorageFailure::RowNotFound),
        ApiError::NotFound("Resource not found".to_string())
    );
}

#[test]
fn other_storage_failure_keeps_its_detail() {
    assert_eq!(
        ApiError::from_storage(StorageFailure::Other("pool timed out".to_string())),
        ApiError::DatabaseError("pool timed out".to_string())
    );
}

#[test]
fn missing_college_names_the_id() {
    let error = ApiError::college_not_found(999999);
    assert_eq!(error, ApiError::NotFound("College not found with id: 999999".to_string()));
    assert_eq!(error.status_code(), 404);
    assert_eq!(
        error.body(),
        ErrorBody { error: "College not found with id: 999999".to_string(), status: 404 }
    );
}

#[test]
fn missing_college_with_a_negative_id() {
    assert_eq!(
        ApiError::college_not_found(-7),
        ApiError::NotFound("College not found with id: -7".to_string())
    );
    assert_eq!(
        ApiError::college_not_found(i32::MIN),
        ApiError::NotFound("College not found with id: -2147483648".to_string())
    );
}

#[test]
fn lookup_that_found_nothing_is_not_found() {
    assert_eq!(found_college(Some("COEP"), 7), Ok("COEP"));
    assert_eq!(
        found_college(None::<&str>, 999999),
        Err(ApiError::NotFound("College not found with id: 999999".to_string()))
    );
}
