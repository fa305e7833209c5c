//! The part of HTTP that the service speaks.

use crate::book::{BookList, BookView};
use vstd::prelude::*;

verus! {

/// The three status codes the service ever answers with.
#[derive(Clone, Copy, Debug, PartialEq, Eq, Structural)]
pub enum Status {
    /// 200 OK
    Success,
    /// 204 No Content
    NoContent,
    /// 500 Internal Server Error
    InternalServerError,
}

impl Status {
    /// The numeric status code.
    pub open spec fn code_spec(self) -> u16 {
        match self {
            Status::Success => 200,
            Status::NoContent => 204,
            Status::InternalServerError => 500,
        }
    }

    /// The numeric status code.
    #[verifier::when_used_as_spec(code_spec)]
    pub fn code(self) -> (c: u16)
        ensures
            c == self.code_spec(),
    {
        match self {
            Status::Success => 200,
            Status::NoContent => 204,
            Status::InternalServerError => 500,
        }
    }
}

/// What is sent back for one request. A response without a body carries
/// nothing after its status line and headers; one with a body carries the
/// records as a JSON array, one object per record.
#[derive(Clone, Debug, PartialEq, Eq)]
pub struct Response {
    pub status: Status,
    pub body: Option<BookList>,
}

/// The mathematical value of a [`Response`].
pub struct ResponseView {
    pub status: Status,
    pub body: Option<Seq<BookView>>,
}

impl View for Response {
    type V = ResponseView;

    open spec fn view(&self) -> ResponseView {
        ResponseView {
            status: self.status,
            body: match self.body {
                Some(list) => Some(list@),
                None => None,
            },
        }
    }
}

/// The answer to a liveness probe: 204 and no body.
pub open spec fn no_content() -> ResponseView {
    ResponseView { status: Status::NoContent, body: None }
}

/// The one answer to every failure while serving a request: 500 and no body.
pub open spec fn server_error() -> ResponseView {
    ResponseView { status: Status::InternalServerError, body: None }
}

/// The answer that carries `books`: 200 and the records as the body.
pub open spec fn listing_of(books: Seq<BookView>) -> ResponseView {
    ResponseView { status: Status::Success, body: Some(books) }
}

} // verus!
