//! What a tabular upload has to be before its lines are read: a multipart
//! field named `file` whose content is text.

use vstd::prelude::*;
use vstd::string::StringExecFns;
use vstd::utf8::{decode_utf8, valid_utf8};
use crate::errors::{ApiError, ApiErrorView};

verus! {

/// The name of the multipart field that carries the file.
pub open spec fn file_field() -> Seq<char> {
    "file"@
}

/// The message for an upload whose multipart framing is broken.
pub open spec fn invalid_upload_message(detail: Seq<char>) -> Seq<char> {
    "Invalid file upload: "@ + detail
}

/// The message for an upload whose file could not be read to its end.
pub open spec fn unreadable_file_message(detail: Seq<char>) -> Seq<char> {
    "Failed to read file: "@ + detail
}

/// The message for an upload whose file is not text.
pub open spec fn not_text_message(detail: Seq<char>) -> Seq<char> {
    "Invalid UTF-8 content: "@ + detail
}

/// The message for an upload without a field named `file`.
pub open spec fn missing_file_message() -> Seq<char> {
    "No file field in upload"@
}

/// `String::from_utf8`: the text that the bytes encode in UTF-8, or, where
/// they are not valid UTF-8, the standard library's description of the
/// first fault, of which nothing is claimed.
#[verifier::external_body]
fn text_of(bytes: Vec<u8>) -> (text: Result<String, String>)
    ensures
        text is Ok <==> valid_utf8(bytes@),
        text matches Ok(t) ==> t@ == decode_utf8(bytes@),
{
    match String::from_utf8(bytes) {
        Ok(text) => Ok(text),
        Err(fault) => Err(fault.to_string()),
    }
}

/// Whether a multipart field is the one that carries the file.
pub fn is_file_field(name: &str) -> (is: bool)
    ensures
        is == (name@ == file_field()),
{
    String::from_str(name) == String::from_str("file")
}

fn bad_request(prefix: &str, detail: &str) -> (error: ApiError)
    ensures
        error@ == ApiErrorView::BadRequest(prefix@ + detail@),
{
    let mut message = String::from_str(prefix);
    message.append(detail);
    ApiError::BadRequest(message)
}

/// The failure of an upload whose multipart framing is broken.
pub fn invalid_upload(detail: &str) -> (error: ApiError)
    ensures
        error@ == ApiErrorView::BadRequest(invalid_upload_message(detail@)),
{
    bad_request("Invalid file upload: ", detail)
}

/// The failure of an upload whose file could not be read to its end.
pub fn unreadable_file(detail: &str) -> (error: ApiError)
    ensures
        error@ == ApiErrorView::BadRequest(unreadable_file_message(detail@)),
{
    bad_request("Failed to read file: ", detail)
}

/// The failure of an upload whose file is not text.
pub fn not_text(detail: &str) -> (error: ApiError)
    ensures
        error@ == ApiErrorView::BadRequest(not_text_message(detail@)),
{
    bad_request("Invalid UTF-8 content: ", detail)
}

/// The failure of an upload that has no field named `file`.
pub fn missing_file() -> (error: ApiError)
    ensures
        error@ == ApiErrorView::BadRequest(missing_file_message()),
{
    ApiError::BadRequest(String::from_str("No file field in upload"))
}

/// Reads the content of an uploaded file as text. Succeeds exactly on valid
/// UTF-8, with the text that the bytes encode; anything else is a bad
/// request whose message starts with `Invalid UTF-8 content: `.
pub fn decode_upload(bytes: Vec<u8>) -> (content: Result<String, ApiError>)
    ensures
        content is Ok <==> valid_utf8(bytes@),
        content matches Ok(text) ==> text@ == decode_utf8(bytes@),
        content matches Err(e) ==> exists|detail: Seq<char>|
            e@ == ApiErrorView::BadRequest(#[trigger] not_text_message(detail)),
{
    match text_of(bytes) {
        Ok(text) => Ok(text),
        Err(detail) => {
            let error = not_text(detail.as_str());
            Err(error)
        },
    }
}

/// What to do with the next field of a multipart upload.
#[derive(Clone, Debug, PartialEq, Eq)]
pub enum UploadStep {
    /// The field does not carry the file: go on to the next field.
    Skip,
    /// The field carries the file: import its content and answer with the
    /// summary.
    Import,
    /// The fields are at their end and none carried the file: answer with
    /// this failure.
    Refuse(ApiError),
}

/// Decides what to do with the next field of an upload, by its name.
/// `None` stands for the end of the fields; a field may have no name. The
/// first field named `file` is imported; every field before it is skipped;
/// an upload that ends without one is a bad request.
pub fn upload_step(field: Option<Option<&str>>) -> (step: UploadStep)
    ensures
        field is None ==> (step matches UploadStep::Refuse(e) && e@ == ApiErrorView::BadRequest(
            missing_file_message(),
        )),
        field matches Some(name) ==> (step is Import <==> (name matches Some(n) && n@
            == file_field())),
        field matches Some(name) ==> (step is Skip <==> !(name matches Some(n) && n@
            == file_field())),
{
    match field {
        None => UploadStep::Refuse(missing_file()),
        Some(None) => UploadStep::Skip,
        Some(Some(name)) => {
            if is_file_field(name) {
                UploadStep::Import
            } else {
                UploadStep::Skip
            }
        },
    }
}

} // verus!
