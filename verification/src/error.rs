//! The ways in which a request can fail, and the HTTP status of each.

use vstd::prelude::*;
use vstd::string::to_string_from_display_ensures;
use vstd::string::StringExecFns;

verus! {

/// Why a request failed.
#[derive(Debug, Clone, PartialEq)]
pub enum ServiceError {
    /// The path, the query or the body is malformed; the text says how.
    Validation(String),
    /// The body is larger than the service buffers.
    PayloadTooLarge,
    /// No employee has the id that the request names.
    NotFound,
    /// No connection to the database could be had.
    Connection(String),
    /// The database refused the statement.
    Statement(String),
}

/// The mathematical value of a [`ServiceError`].
pub enum ServiceErrorView {
    Validation(Seq<char>),
    PayloadTooLarge,
    NotFound,
    Connection(Seq<char>),
    Statement(Seq<char>),
}

impl View for ServiceError {
    type V = ServiceErrorView;

    open spec fn view(&self) -> ServiceErrorView {
        match self {
            ServiceError::Validation(text) => ServiceErrorView::Validation(text@),
            ServiceError::PayloadTooLarge => ServiceErrorView::PayloadTooLarge,
            ServiceError::NotFound => ServiceErrorView::NotFound,
            ServiceError::Connection(text) => ServiceErrorView::Connection(text@),
            ServiceError::Statement(text) => ServiceErrorView::Statement(text@),
        }
    }
}

/// The HTTP status that answers a failure: 400 for what the client sent
/// wrong, 404 for a missing employee, 500 for trouble with the database.
pub open spec fn status_of(error: ServiceErrorView) -> int {
    match error {
        ServiceErrorView::Validation(_) => 400,
        ServiceErrorView::PayloadTooLarge => 400,
        ServiceErrorView::NotFound => 404,
        ServiceErrorView::Connection(_) => 500,
        ServiceErrorView::Statement(_) => 500,
    }
}

/// The text that answers a failure.
pub open spec fn message_of(error: ServiceErrorView) -> Seq<char> {
    match error {
        ServiceErrorView::Validation(text) => text,
        ServiceErrorView::PayloadTooLarge => "overflow"@,
        ServiceErrorView::NotFound => "Record not found"@,
        ServiceErrorView::Connection(text) => text,
        ServiceErrorView::Statement(text) => text,
    }
}

impl ServiceError {
    /// The HTTP status that answers this failure.
    pub fn status(&self) -> (code: u16)
        ensures
            code == status_of(self@),
    {
        match self {
            ServiceError::Validation(_) => 400,
            ServiceError::PayloadTooLarge => 400,
            ServiceError::NotFound => 404,
            ServiceError::Connection(_) => 500,
            ServiceError::Statement(_) => 500,
        }
    }

    /// The text that answers this failure.
    pub fn message(&self) -> (text: String)
        ensures
            text@ == message_of(self@),
    {
        match self {
            ServiceError::Validation(text) => text.clone(),
            ServiceError::PayloadTooLarge => String::from_str("overflow"),
            ServiceError::NotFound => String::from_str("Record not found"),
            ServiceError::Connection(text) => text.clone(),
            ServiceError::Statement(text) => text.clone(),
        }
    }
}

/// `r2d2::Error`, what the pool reports when it has no connection to give.
#[verifier::external_type_specification]
#[verifier::external_body]
pub struct ExPoolError(r2d2::Error);

/// The failure that answers a statement which went wrong: `NotFound` where
/// it found no row, and otherwise a refusal with the text of the database.
pub open spec fn refusal(nothing_found: bool, text: Seq<char>) -> ServiceErrorView {
    if nothing_found {
        ServiceErrorView::NotFound
    } else {
        ServiceErrorView::Statement(text)
    }
}

/// Whether `text` is how a pool error reads: what `to_string` makes of the
/// error's `Display`.
pub open spec fn pool_reads(error: &r2d2::Error, text: String) -> bool {
    to_string_from_display_ensures::<r2d2::Error>(error, text)
}

impl ServiceError {
    /// The failure that answers a statement which went wrong, from what the
    /// database reported: whether the statement found no row, and the text of
    /// the report.
    pub fn refused(nothing_found: bool, text: String) -> (error: ServiceError)
        ensures
            error@ == refusal(nothing_found, text@),
    {
        if nothing_found {
            ServiceError::NotFound
        } else {
            ServiceError::Statement(text)
        }
    }

    /// The failure that answers a pool which gave no connection: a
    /// connection failure with the text that the pool's `Display` writes for
    /// the error.
    pub fn from_pool(error: &r2d2::Error) -> (failure: ServiceError)
        ensures
            failure matches ServiceError::Connection(text) && pool_reads(error, text),
            status_of(failure@) == 500,
    {
        ServiceError::Connection(error.to_string())
    }
}

/// Every failure is answered with a client error or a server error, and a
/// missing employee is the only one answered with 404.
pub proof fn law_failures_have_error_statuses(error: ServiceErrorView)
    ensures
        400 <= status_of(error) < 600,
        status_of(error) == 404 <==> error is NotFound,
{
}

} // verus!
