//! HTTP as plain values: the request that an operation sends, and the reply
//! that the transport brings back. Sending and receiving are left to the
//! caller.

use vstd::prelude::*;

verus! {

/// The method of a request.
#[derive(Clone, Copy, Debug, PartialEq, Eq, Structural)]
pub enum Method {
    Get,
    Post,
}

/// One header line of a request.
#[derive(Clone, Debug, PartialEq, Eq)]
pub struct Header {
    pub name: String,
    pub value: String,
}

/// A request, ready to be sent.
#[derive(Clone, Debug, PartialEq, Eq)]
pub struct Request {
    pub method: Method,
    pub url: String,
    /// The headers, in the order in which they are set.
    pub headers: Vec<Header>,
    pub body: Option<String>,
}

/// What came of sending a request.
#[derive(Clone, Debug, PartialEq, Eq)]
pub enum Reply {
    /// No response came: the request could not be sent, or the response could
    /// not be read to its end. The text is the transport's account of it.
    Failed(String),
    /// A response, with its status code and the bytes of its body.
    Answered { status: u16, body: Vec<u8> },
}

/// A [`Request`] with its texts as sequences of characters, each header as
/// the pair of its name and its value.
pub struct RequestView {
    pub method: Method,
    pub url: Seq<char>,
    pub headers: Seq<(Seq<char>, Seq<char>)>,
    pub body: Option<Seq<char>>,
}

/// A [`Reply`] with its text and its body as sequences.
pub enum ReplyView {
    Failed(Seq<char>),
    Answered { status: u16, body: Seq<u8> },
}

impl View for Header {
    type V = (Seq<char>, Seq<char>);

    open spec fn view(&self) -> (Seq<char>, Seq<char>) {
        (self.name@, self.value@)
    }
}

impl View for Request {
    type V = RequestView;

    open spec fn view(&self) -> RequestView {
        RequestView {
            method: self.method,
            url: self.url@,
            headers: Seq::new(self.headers@.len(), |i: int| self.headers@[i]@),
            body: match self.body {
                Some(text) => Some(text@),
                None => None,
            },
        }
    }
}

impl View for Reply {
    type V = ReplyView;

    open spec fn view(&self) -> ReplyView {
        match *self {
            Reply::Failed(cause) => ReplyView::Failed(cause@),
            Reply::Answered { status, body } => ReplyView::Answered { status, body: body@ },
        }
    }
}

/// The reply that is a response with the status `status` and the body
/// `body`.
pub open spec fn answered(status: u16, body: Seq<u8>) -> ReplyView {
    ReplyView::Answered { status, body }
}

/// Whether a status code is one of success: 200 to 299.
pub open spec fn is_success(status: u16) -> bool {
    200 <= status <= 299
}

/// Tells whether a status code is one of success.
pub fn status_is_success(status: u16) -> (success: bool)
    ensures
        success == is_success(status),
{
    200 <= status && status <= 299
}

} // verus!
