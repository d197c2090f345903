//! Errors that the service answers requests with.

use vstd::prelude::*;

verus! {

/// An error answered to a client.
#[derive(Debug)]
pub enum AppError {
    Unauthorized(String),
    Forbidden(String),
    NotFound(String),
    BadRequest(String),
    /// An internal failure; its text is logged, never sent.
    Internal(String),
    /// A database failure; its text is logged, never sent.
    Database(String),
}

/// An error as kind and text.
pub enum ErrorView {
    Unauthorized(Seq<char>),
    Forbidden(Seq<char>),
    NotFound(Seq<char>),
    BadRequest(Seq<char>),
    Internal(Seq<char>),
    Database(Seq<char>),
}

impl View for AppError {
    type V = ErrorView;

    open spec fn view(&self) -> ErrorView {
        match self {
            AppError::Unauthorized(m) => ErrorView::Unauthorized(m@),
            AppError::Forbidden(m) => ErrorView::Forbidden(m@),
            AppError::NotFound(m) => ErrorView::NotFound(m@),
            AppError::BadRequest(m) => ErrorView::BadRequest(m@),
            AppError::Internal(m) => ErrorView::Internal(m@),
            AppError::Database(m) => ErrorView::Database(m@),
        }
    }
}

/// The HTTP status an error is answered with.
pub open spec fn error_status(e: ErrorView) -> u16 {
    match e {
        ErrorView::Unauthorized(_) => 401,
        ErrorView::Forbidden(_) => 403,
        ErrorView::NotFound(_) => 404,
        ErrorView::BadRequest(_) => 400,
        ErrorView::Internal(_) => 500,
        ErrorView::Database(_) => 500,
    }
}

/// The message an error is answered with: client errors show their text,
/// internal and database errors only say which they are.
pub open spec fn error_message(e: ErrorView) -> Seq<char> {
    match e {
        ErrorView::Unauthorized(m) => m,
        ErrorView::Forbidden(m) => m,
        ErrorView::NotFound(m) => m,
        ErrorView::BadRequest(m) => m,
        ErrorView::Internal(_) => "internal error"@,
        ErrorView::Database(_) => "database error"@,
    }
}

impl AppError {
    /// The status code and the `error` message of the JSON body this error is answered with.
    pub fn status_and_message(&self) -> (r: (u16, String))
        ensures
            r.0 == error_status(self@),
            r.1@ == error_message(self@),
    {
        match self {
            AppError::Unauthorized(m) => (401, m.clone()),
            AppError::Forbidden(m) => (403, m.clone()),
            AppError::NotFound(m) => (404, m.clone()),
            AppError::BadRequest(m) => (400, m.clone()),
            AppError::Internal(_) => (500, "internal error".to_owned()),
            AppError::Database(_) => (500, "database error".to_owned()),
        }
    }

    /// Whether this error is logged when it is answered.
    pub fn is_logged(&self) -> (r: bool)
        ensures
            r == (self@ is Internal || self@ is Database),
    {
        match self {
            AppError::Internal(_) | AppError::Database(_) => true,
            _ => false,
        }
    }
}

/// An error of kind `Forbidden` with the given text.
pub fn forbidden(msg: &str) -> (e: AppError)
    ensures
        e@ == ErrorView::Forbidden(msg@),
{
    AppError::Forbidden(msg.to_owned())
}

/// An error of kind `NotFound` with the given text.
pub fn not_found(msg: &str) -> (e: AppError)
    ensures
        e@ == ErrorView::NotFound(msg@),
{
    AppError::NotFound(msg.to_owned())
}

/// An error of kind `Unauthorized` with the given text.
pub fn unauthorized(msg: &str) -> (e: AppError)
    ensures
        e@ == ErrorView::Unauthorized(msg@),
{
    AppError::Unauthorized(msg.to_owned())
}

/// An error of kind `BadRequest` with the given text.
pub fn bad_request(msg: &str) -> (e: AppError)
    ensures
        e@ == ErrorView::BadRequest(msg@),
{
    AppError::BadRequest(msg.to_owned())
}

/// An error of kind `Internal` with the given text.
pub fn internal(msg: &str) -> (e: AppError)
    ensures
        e@ == ErrorView::Internal(msg@),
{
    AppError::Internal(msg.to_owned())
}

} // verus!
