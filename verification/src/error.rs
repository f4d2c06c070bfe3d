//! The errors that a request can end in, and what the caller is told of each.

use vstd::prelude::*;
use crate::event::{EventValidationError, RejectionView};
use crate::text::{decimal, decimal_text};

verus! {

/// What the caller is told of an error whose details stay in the log.
pub const INTERNAL_ERROR_MESSAGE: &'static str = "Internal server error";

/// An error of a request.
#[derive(Debug)]
pub enum Error {
    /// The event was refused at admission.
    InvalidEvent(EventValidationError),
    /// Input or output failed; the text describes how.
    Io(String),
    /// The server failed; the text describes how.
    Server(String),
    /// Something else failed inside the service.
    Internal(String),
    /// What was asked for does not exist.
    NotFound(String),
}

/// The mathematical value of an `Error`.
pub enum ErrorView {
    InvalidEvent(RejectionView),
    Io(Seq<char>),
    Server(Seq<char>),
    Internal(Seq<char>),
    NotFound(Seq<char>),
}

impl View for Error {
    type V = ErrorView;

    open spec fn view(&self) -> ErrorView {
        match self {
            Error::InvalidEvent(error) => ErrorView::InvalidEvent(error@),
            Error::Io(text) => ErrorView::Io(text@),
            Error::Server(text) => ErrorView::Server(text@),
            Error::Internal(text) => ErrorView::Internal(text@),
            Error::NotFound(text) => ErrorView::NotFound(text@),
        }
    }
}

impl ErrorView {
    /// The status code of the response.
    pub open spec fn status(self) -> u16 {
        match self {
            ErrorView::InvalidEvent(_) => 400,
            ErrorView::NotFound(_) => 404,
            _ => 500,
        }
    }

    /// The message of the response. A refused event and a missing resource
    /// are described to the caller; of any other error the caller learns only
    /// that the service failed.
    pub open spec fn message(self) -> Seq<char> {
        match self {
            ErrorView::InvalidEvent(reason) => reason.message(),
            ErrorView::NotFound(text) => text,
            _ => INTERNAL_ERROR_MESSAGE@,
        }
    }
}

impl Error {
    /// The error of a query for a source that has sent no event.
    pub fn source_not_found(source_id: u64) -> (error: Error)
        ensures
            error@ == ErrorView::NotFound("Source id "@ + decimal(source_id as nat) + " not found"@),
    {
        Error::NotFound(
            "Source id ".to_owned().concat(decimal_text(source_id).as_str()).concat(" not found"),
        )
    }

    /// The status code and the message of the response to the caller.
    pub fn response_parts(&self) -> (parts: (u16, String))
        ensures
            parts.0 == self@.status(),
            parts.1@ == self@.message(),
    {
        match self {
            Error::InvalidEvent(error) => (400, error.message()),
            Error::NotFound(text) => (404, text.clone()),
            _ => (500, INTERNAL_ERROR_MESSAGE.to_owned()),
        }
    }
}

} // verus!
