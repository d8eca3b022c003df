//! The answers that the handlers give, before they are rendered as HTTP.

use vstd::prelude::*;
use crate::models::{Location, User};
use crate::jwt::TokenPair;

verus! {

/// The HTTP status of an answer (`Success` is 200 OK).
#[derive(Clone, Copy, Debug, PartialEq, Eq, Structural)]
pub enum Status {
    Success,
    BadRequest,
    Forbidden,
    InternalServerError,
}

/// The body of an answer; every variant but `Empty` is sent as JSON.
pub enum Body {
    Empty,
    /// The metadata file's text, sent as a JSON string.
    Metadata(String),
    Users(Vec<User>),
    Locations(Vec<Location>),
    Tokens(TokenPair),
    /// A message sent as a JSON string.
    Message(String),
    /// `{"success": .., "msg": ..}`, without `msg` where it is `None`.
    Outcome { success: bool, msg: Option<String> },
    /// `{"error": ..}`.
    Error(String),
}

/// An answer: a status and a body.
pub struct Response {
    pub status: Status,
    pub body: Body,
}

impl Response {
    /// An answer with the given status and an empty body.
    pub fn empty(status: Status) -> (r: Response)
        ensures
            r.status == status,
            r.body is Empty,
    {
        Response { status, body: Body::Empty }
    }
}

} // verus!
