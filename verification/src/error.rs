//! The ways in which an operation fails.

use vstd::prelude::*;

verus! {

/// The exchange with the server did not end in a success status.
#[derive(Clone, Debug, PartialEq, Eq)]
pub enum TransportError {
    /// No status came back: the request could not be sent, or the reply could
    /// not be read. The text is the transport's own account of it.
    Connection(String),
    /// The server answered with this status, which is not a success.
    Status(u16),
}

/// The body of a reply with a success status could not be made sense of.
#[derive(Clone, Debug, PartialEq, Eq)]
pub enum DecodeError {
    /// The body is not JSON. The text is what `serde_json` says of it.
    Syntax(String),
    /// The body is JSON, but neither an error envelope nor what the operation
    /// returns on success.
    Shape,
}

/// The errors that may occur while using this crate.
#[derive(Clone, Debug, PartialEq, Eq)]
pub enum Error {
    /// The transport failed, or the server answered with a status that is not
    /// a success.
    Reqwest(TransportError),
    /// The server answered with a success status and an error envelope; the
    /// text is the message in it.
    UptimeApi(String),
    /// The server answered with a success status and a body that could not be
    /// decoded.
    SerdeJson(DecodeError),
}

/// An [`Error`] with its texts as sequences of characters.
pub enum ErrorView {
    Connection(Seq<char>),
    Status(u16),
    Api(Seq<char>),
    Syntax(Seq<char>),
    Shape,
}

impl View for Error {
    type V = ErrorView;

    open spec fn view(&self) -> ErrorView {
        match *self {
            Error::Reqwest(TransportError::Connection(cause)) => ErrorView::Connection(cause@),
            Error::Reqwest(TransportError::Status(status)) => ErrorView::Status(status),
            Error::UptimeApi(message) => ErrorView::Api(message@),
            Error::SerdeJson(DecodeError::Syntax(message)) => ErrorView::Syntax(message@),
            Error::SerdeJson(DecodeError::Shape) => ErrorView::Shape,
        }
    }
}

/// The result of an operation, with its value and its error as their views.
pub open spec fn result_view<T: View>(result: Result<T, Error>) -> Result<T::V, ErrorView> {
    match result {
        Ok(value) => Ok(value@),
        Err(error) => Err(error@),
    }
}

} // verus!
