//! The closed set of request-level failures and their transport status codes.

use vstd::prelude::*;
use vstd::string::StringExecFns;
use crate::text::{push_signed_decimal, signed_decimal};

verus! {

/// Why a request failed.
#[derive(Clone, Debug, PartialEq, Eq)]
pub enum ApiError {
    /// The store could not be reached or refused the query. Holds the
    /// internal detail, which is logged and never sent to the caller.
    DatabaseError(String),
    /// The requested entity does not exist.
    NotFound(String),
    /// The client sent something malformed.
    BadRequest(String),
    /// An invariant that should always hold did not.
    InternalServerError(String),
}

/// An [`ApiError`] with its text as a sequence of characters.
pub enum ApiErrorView {
    DatabaseError(Seq<char>),
    NotFound(Seq<char>),
    BadRequest(Seq<char>),
    InternalServerError(Seq<char>),
}

impl View for ApiError {
    type V = ApiErrorView;

    open spec fn view(&self) -> ApiErrorView {
        match self {
            ApiError::DatabaseError(detail) => ApiErrorView::DatabaseError(detail@),
            ApiError::NotFound(message) => ApiErrorView::NotFound(message@),
            ApiError::BadRequest(message) => ApiErrorView::BadRequest(message@),
            ApiError::InternalServerError(message) => ApiErrorView::InternalServerError(message@),
        }
    }
}

/// How a query against the store failed, as far as the request handling cares.
#[derive(Clone, Debug, PartialEq, Eq)]
pub enum StorageFailure {
    /// A query that must return one row returned none.
    RowNotFound,
    /// Anything else, with the store's own description.
    Other(String),
}

/// A [`StorageFailure`] with its text as a sequence of characters.
pub enum StorageFailureView {
    RowNotFound,
    Other(Seq<char>),
}

impl View for StorageFailure {
    type V = StorageFailureView;

    open spec fn view(&self) -> StorageFailureView {
        match self {
            StorageFailure::RowNotFound => StorageFailureView::RowNotFound,
            StorageFailure::Other(detail) => StorageFailureView::Other(detail@),
        }
    }
}

/// What is sent to the caller: the message and the numeric status.
#[derive(Clone, Debug, PartialEq, Eq)]
pub struct ErrorBody {
    pub error: String,
    pub status: u16,
}

/// The status of a request that the client got wrong.
pub const STATUS_BAD_REQUEST: u16 = 400;

/// The status of a request for something that does not exist.
pub const STATUS_NOT_FOUND: u16 = 404;

/// The status of a request that failed on the server's side.
pub const STATUS_INTERNAL_SERVER_ERROR: u16 = 500;

impl ApiErrorView {
    /// The transport status of each kind of failure.
    pub open spec fn status(self) -> u16 {
        match self {
            ApiErrorView::DatabaseError(_) => STATUS_INTERNAL_SERVER_ERROR,
            ApiErrorView::NotFound(_) => STATUS_NOT_FOUND,
            ApiErrorView::BadRequest(_) => STATUS_BAD_REQUEST,
            ApiErrorView::InternalServerError(_) => STATUS_INTERNAL_SERVER_ERROR,
        }
    }

    /// The message the caller sees. A storage failure shows a fixed text:
    /// its detail stays on the server.
    pub open spec fn public_message(self) -> Seq<char> {
        match self {
            ApiErrorView::DatabaseError(_) => "Database error occurred"@,
            ApiErrorView::NotFound(message) => message,
            ApiErrorView::BadRequest(message) => message,
            ApiErrorView::InternalServerError(message) => message,
        }
    }

    /// The failure that a storage failure surfaces as.
    pub open spec fn of_storage(failure: StorageFailureView) -> ApiErrorView {
        match failure {
            StorageFailureView::RowNotFound => ApiErrorView::NotFound("Resource not found"@),
            StorageFailureView::Other(detail) => ApiErrorView::DatabaseError(detail),
        }
    }

    /// The failure of a lookup of a college by an id that no college has.
    pub open spec fn college_not_found(id: i32) -> ApiErrorView {
        ApiErrorView::NotFound("College not found with id: "@ + signed_decimal(id as int))
    }
}

impl ApiError {
    /// The transport status of this failure.
    pub fn status_code(&self) -> (code: u16)
        ensures
            code == self@.status(),
    {
        match self {
            ApiError::DatabaseError(_) => STATUS_INTERNAL_SERVER_ERROR,
            ApiError::NotFound(_) => STATUS_NOT_FOUND,
            ApiError::BadRequest(_) => STATUS_BAD_REQUEST,
            ApiError::InternalServerError(_) => STATUS_INTERNAL_SERVER_ERROR,
        }
    }

    /// The message that the caller sees.
    pub fn public_message(&self) -> (message: String)
        ensures
            message@ == self@.public_message(),
    {
        match self {
            ApiError::DatabaseError(_) => String::from_str("Database error occurred"),
            ApiError::NotFound(message) => message.clone(),
            ApiError::BadRequest(message) => message.clone(),
            ApiError::InternalServerError(message) => message.clone(),
        }
    }

    /// The response body of this failure.
    pub fn body(&self) -> (body: ErrorBody)
        ensures
            body.error@ == self@.public_message(),
            body.status == self@.status(),
    {
        ErrorBody { error: self.public_message(), status: self.status_code() }
    }

    /// A missing row is the caller's `NotFound`; every other storage failure
    /// is a `DatabaseError` that keeps the detail.
    pub fn from_storage(failure: StorageFailure) -> (error: ApiError)
        ensures
            error@ == ApiErrorView::of_storage(failure@),
    {
        match failure {
            StorageFailure::RowNotFound => ApiError::NotFound(
                String::from_str("Resource not found"),
            ),
            StorageFailure::Other(detail) => ApiError::DatabaseError(detail),
        }
    }

    /// The failure of a lookup by `id` that found no college; names the id.
    pub fn college_not_found(id: i32) -> (error: ApiError)
        ensures
            error@ == ApiErrorView::college_not_found(id),
    {
        let mut message = String::from_str("College not found with id: ");
        push_signed_decimal(&mut message, id as i64);
        ApiError::NotFound(message)
    }
}

/// What a lookup of a college by id amounts to: the row where the store
/// found one, `NotFound` naming the id where it found none.
pub fn found_college<T>(found: Option<T>, id: i32) -> (result: Result<T, ApiError>)
    ensures
        found matches Some(row) ==> result == Ok::<T, ApiError>(row),
        found is None ==> (result matches Err(e) && e@ == ApiErrorView::college_not_found(id)),
{
    match found {
        Some(row) => Ok(row),
        None => Err(ApiError::college_not_found(id)),
    }
}

} // verus!
