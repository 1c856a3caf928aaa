//! What the service answers: a status and a body, still as values. Writing
//! the body out, as JSON or as text, is left to the front end.

use crate::error::{message_of, status_of, ServiceError, ServiceErrorView};
use crate::handlers::routes::{Info, InfoView, Response, ResponseView};
use crate::models::employee::{Employee, EmployeeView};
use crate::view::views;
use vstd::prelude::*;

verus! {

/// The body of a reply.
#[derive(Debug, Clone, PartialEq)]
pub enum Body {
    /// No body.
    Empty,
    /// Plain text.
    Text(String),
    /// Bytes that are sent piece by piece.
    Stream(Vec<u8>),
    /// The envelope of the endpoints that report a status.
    Envelope(Response),
    /// The echo of what a client sent.
    Info(Info),
    /// One employee, written as a JSON object.
    Employee(Employee),
    /// Employees, written as a JSON array.
    Employees(Vec<Employee>),
    /// A number of rows, written as a JSON number.
    Count(usize),
}

/// The mathematical value of a [`Body`].
pub enum BodyView {
    Empty,
    Text(Seq<char>),
    Stream(Seq<u8>),
    Envelope(ResponseView),
    Info(InfoView),
    Employee(EmployeeView),
    Employees(Seq<EmployeeView>),
    Count(nat),
}

impl View for Body {
    type V = BodyView;

    open spec fn view(&self) -> BodyView {
        match self {
            Body::Empty => BodyView::Empty,
            Body::Text(text) => BodyView::Text(text@),
            Body::Stream(bytes) => BodyView::Stream(bytes@),
            Body::Envelope(envelope) => BodyView::Envelope(envelope@),
            Body::Info(info) => BodyView::Info(info@),
            Body::Employee(row) => BodyView::Employee(row@),
            Body::Employees(rows) => BodyView::Employees(views(rows@)),
            Body::Count(count) => BodyView::Count(*count as nat),
        }
    }
}

/// The answer to a request.
#[derive(Debug, Clone, PartialEq)]
pub struct Reply {
    /// The HTTP status.
    pub status: u16,
    pub body: Body,
}

/// The mathematical value of a [`Reply`].
pub struct ReplyView {
    pub status: int,
    pub body: BodyView,
}

impl View for Reply {
    type V = ReplyView;

    open spec fn view(&self) -> ReplyView {
        ReplyView { status: self.status as int, body: self.body@ }
    }
}

/// The reply to a request that succeeded: status 200 and the body.
pub open spec fn ok_with(body: BodyView) -> ReplyView {
    ReplyView { status: 200, body }
}

/// The reply to a request that failed: the status of the failure, and its
/// text as the body.
pub open spec fn failed_with(error: ServiceErrorView) -> ReplyView {
    ReplyView { status: status_of(error), body: BodyView::Text(message_of(error)) }
}

/// The reply to a request that no route accepts: status 404, no body.
pub open spec fn no_route() -> ReplyView {
    ReplyView { status: 404, body: BodyView::Empty }
}

impl Reply {
    /// The reply to a request that succeeded.
    pub fn ok(body: Body) -> (reply: Reply)
        ensures
            reply@ == ok_with(body@),
    {
        Reply { status: 200, body }
    }

    /// The reply to a request that failed.
    pub fn failure(error: &ServiceError) -> (reply: Reply)
        ensures
            reply@ == failed_with(error@),
    {
        Reply { status: error.status(), body: Body::Text(error.message()) }
    }

    /// The reply to a request that no route accepts.
    pub fn not_found() -> (reply: Reply)
        ensures
            reply@ == no_route(),
    {
        Reply { status: 404, body: Body::Empty }
    }
}

} // verus!
