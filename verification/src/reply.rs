//! Replies of the database and refusals of the middlewares.
use vstd::prelude::*;

verus! {

/// What came back from a request to the database: the row (`Done`), an
/// error of the query itself, such as no matching row (`QueryFailed`), or a
/// failure to deliver the request at all (`MailboxFailed`).
#[derive(Debug, Clone)]
pub enum DbReply<T> {
    Done(T),
    QueryFailed,
    MailboxFailed,
}

/// Why a middleware refused a request.
#[derive(Copy, Clone, Debug, PartialEq, Eq)]
pub enum Rejection {
    NotFound,
    TooManyRequests,
    InternalError,
    Unauthorized,
}

impl Rejection {
    /// HTTP status code of the refusal.
    pub open spec fn spec_status(self) -> u16 {
        match self {
            Rejection::NotFound => 404,
            Rejection::TooManyRequests => 429,
            Rejection::InternalError => 500,
            Rejection::Unauthorized => 401,
        }
    }

    /// HTTP status code of the refusal.
    #[verifier::when_used_as_spec(spec_status)]
    pub fn status(self) -> (code: u16)
        ensures
            code == self.spec_status(),
    {
        match self {
            Rejection::NotFound => 404,
            Rejection::TooManyRequests => 429,
            Rejection::InternalError => 500,
            Rejection::Unauthorized => 401,
        }
    }

    /// Text sent with the refusal.
    pub open spec fn spec_message(self) -> Seq<char> {
        match self {
            Rejection::NotFound => "This resource does not exist"@,
            Rejection::TooManyRequests => "Slow down buddy :))"@,
            Rejection::InternalError => "Something went wrong"@,
            Rejection::Unauthorized => "You don't have access to this resource"@,
        }
    }

    /// Text sent with the refusal.
    pub fn message(self) -> (text: String)
        ensures
            text@ == self.spec_message(),
    {
        match self {
            Rejection::NotFound => "This resource does not exist".to_string(),
            Rejection::TooManyRequests => "Slow down buddy :))".to_string(),
            Rejection::InternalError => "Something went wrong".to_string(),
            Rejection::Unauthorized => "You don't have access to this resource".to_string(),
        }
    }
}

} // verus!
