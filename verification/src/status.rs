//! The response statuses that the service's decisions end in.

use vstd::prelude::*;

verus! {

/// An HTTP status that a request can be answered with.
#[derive(Clone, Copy, Debug, PartialEq, Eq, Structural)]
pub enum Status {
    NoContent,
    BadRequest,
    Unauthorized,
    NotFound,
    InternalServerError,
}

impl Status {
    /// The numeric status code.
    pub open spec fn spec_code(self) -> nat {
        match self {
            Status::NoContent => 204,
            Status::BadRequest => 400,
            Status::Unauthorized => 401,
            Status::NotFound => 404,
            Status::InternalServerError => 500,
        }
    }

    /// The numeric status code.
    pub fn code(&self) -> (c: u16)
        ensures
            c == self.spec_code(),
    {
        match self {
            Status::NoContent => 204,
            Status::BadRequest => 400,
            Status::Unauthorized => 401,
            Status::NotFound => 404,
            Status::InternalServerError => 500,
        }
    }

    /// Whether the status reports a fault of the client's request.
    pub fn is_client_error(&self) -> (b: bool)
        ensures
            b == (400 <= self.spec_code() < 500),
    {
        match self {
            Status::BadRequest => true,
            Status::Unauthorized => true,
            Status::NotFound => true,
            Status::NoContent => false,
            Status::InternalServerError => false,
        }
    }
}

} // verus!
