//! Replies as plain values.

use vstd::prelude::*;

verus! {

/// The body of a reply.
#[derive(Debug)]
pub enum Body {
    /// No body.
    Empty,
    /// Plain text.
    Text(String),
    /// Bytes of a given content type.
    Bytes {
        /// The value of the `Content-Type` header.
        content_type: String,
        /// The bytes.
        bytes: Vec<u8>,
    },
}

/// A machine-readable description that goes along with a reply.
#[derive(Debug)]
pub struct Problem {
    /// The status code that the problem names.
    pub status: u16,
    /// What went wrong.
    pub detail: String,
}

/// A reply to a request.
#[derive(Debug)]
pub struct Reply {
    /// The status code.
    pub status: u16,
    /// The problem attached to the reply, if any.
    pub problem: Option<Problem>,
    /// The body.
    pub body: Body,
}

/// The request is malformed.
pub const BAD_REQUEST: u16 = 400;

/// The request lacks valid credentials.
pub const UNAUTHORIZED: u16 = 401;

/// The request has a body of a type that is not served.
pub const UNSUPPORTED_MEDIA_TYPE: u16 = 415;

/// The request was served.
pub const OK: u16 = 200;

/// The service failed.
pub const INTERNAL_SERVER_ERROR: u16 = 500;

impl Reply {
    /// A reply with this status and text and no problem.
    pub open spec fn is_text(self, status: u16, text: Seq<char>) -> bool {
        &&& self.status == status
        &&& self.problem is None
        &&& self.body matches Body::Text(t)
        &&& t@ == text
    }

    /// A reply with this status and nothing else.
    pub open spec fn is_empty(self, status: u16) -> bool {
        &&& self.status == status
        &&& self.problem is None
        &&& self.body is Empty
    }

    /// A successful reply with these bytes.
    pub open spec fn is_bytes(self, content_type: Seq<char>, bytes: Seq<u8>) -> bool {
        &&& self.status == OK
        &&& self.problem is None
        &&& self.body matches Body::Bytes { content_type: c, bytes: b }
        &&& c@ == content_type
        &&& b@ == bytes
    }

    /// A reply with this status and text, and a problem of the same status with this detail.
    pub open spec fn is_problem(self, status: u16, detail: Seq<char>, text: Seq<char>) -> bool {
        &&& self.status == status
        &&& self.problem matches Some(problem)
        &&& problem.status == status
        &&& problem.detail@ == detail
        &&& self.body matches Body::Text(t)
        &&& t@ == text
    }

    /// Replies with a text.
    pub fn text(status: u16, text: String) -> (reply: Self)
        ensures
            reply.is_text(status, text@),
    {
        Reply { status, problem: None, body: Body::Text(text) }
    }

    /// Replies with a status alone.
    pub fn empty(status: u16) -> (reply: Self)
        ensures
            reply.is_empty(status),
    {
        Reply { status, problem: None, body: Body::Empty }
    }

    /// Replies with bytes.
    pub fn bytes(content_type: &str, bytes: Vec<u8>) -> (reply: Self)
        ensures
            reply.is_bytes(content_type@, bytes@),
    {
        Reply {
            status: OK,
            problem: None,
            body: Body::Bytes { content_type: content_type.to_owned(), bytes },
        }
    }

    /// Replies with a text and attaches a problem.
    pub fn problem(status: u16, detail: &str, text: &str) -> (reply: Self)
        ensures
            reply.is_problem(status, detail@, text@),
    {
        Reply {
            status,
            problem: Some(Problem { status, detail: detail.to_owned() }),
            body: Body::Text(text.to_owned()),
        }
    }
}

} // verus!
