use vstd::prelude::*;
use crate::text::{decimal, i64_to_text};

verus! {

/// The HTTP statuses with which the server answers.
#[derive(Clone, Copy, Debug, PartialEq, Eq, Structural)]
pub enum Status {
    Success,
    BadRequest,
    Unauthorized,
    PaymentRequired,
    Forbidden,
    NotFound,
    InternalServerError,
}

impl Status {
    pub open spec fn spec_code(self) -> u16 {
        match self {
            Status::Success => 200,
            Status::BadRequest => 400,
            Status::Unauthorized => 401,
            Status::PaymentRequired => 402,
            Status::Forbidden => 403,
            Status::NotFound => 404,
            Status::InternalServerError => 500,
        }
    }

    /// The numeric HTTP status code.
    pub fn code(&self) -> (c: u16)
        ensures
            c == self.spec_code(),
    {
        match self {
            Status::Success => 200,
            Status::BadRequest => 400,
            Status::Unauthorized => 401,
            Status::PaymentRequired => 402,
            Status::Forbidden => 403,
            Status::NotFound => 404,
            Status::InternalServerError => 500,
        }
    }
}

/// An answer with a text body.
#[derive(Debug)]
pub struct Reply {
    pub status: Status,
    pub body: String,
}

/// An answer whose body is `text`.
pub fn reply(status: Status, text: &str) -> (r: Reply)
    ensures
        r.status == status,
        r.body@ == text@,
{
    Reply { status, body: String::from_str(text) }
}

/// An answer that carries a number in decimal.
pub fn number_reply(status: Status, n: i64) -> (r: Reply)
    ensures
        r.status == status,
        r.body@ == decimal(n as int),
{
    Reply { status, body: i64_to_text(n) }
}

/// The answer to a request for a count: the count in decimal, or, where the
/// store failed, a 500 with `failure` as its text.
pub fn count_reply(count: Option<i64>, failure: &str) -> (r: Reply)
    ensures
        count matches Some(n) ==> r.status == Status::Success && r.body@ == decimal(n as int),
        count is None ==> r.status == Status::InternalServerError && r.body@ == failure@,
{
    match count {
        Some(n) => number_reply(Status::Success, n),
        None => reply(Status::InternalServerError, failure),
    }
}

} // verus!
