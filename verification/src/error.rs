//! Errors returned by the library.

use vstd::prelude::*;

verus! {

/// What went wrong, with a message for people.
#[derive(Debug)]
pub enum Error {
    /// The client configuration is missing something or is invalid.
    Config(String),
    /// The request cannot be sent as asked.
    InvalidRequest(String),
}

/// An error as contracts speak of it: its kind and its message.
pub enum ErrorView {
    /// A configuration error with its message.
    Config(Seq<char>),
    /// An invalid request with its message.
    InvalidRequest(Seq<char>),
}

impl View for Error {
    type V = ErrorView;

    open spec fn view(&self) -> ErrorView {
        match self {
            Error::Config(m) => ErrorView::Config(m@),
            Error::InvalidRequest(m) => ErrorView::InvalidRequest(m@),
        }
    }
}

impl ErrorView {
    /// The message of the error.
    pub open spec fn message(self) -> Seq<char> {
        match self {
            ErrorView::Config(m) => m,
            ErrorView::InvalidRequest(m) => m,
        }
    }
}

impl Error {
    /// The message of the error, as its `Display` form prints it.
    pub fn to_string(&self) -> (r: String)
        ensures
            r@ == self@.message(),
    {
        match self {
            Error::Config(m) => m.clone(),
            Error::InvalidRequest(m) => m.clone(),
        }
    }
}

} // verus!
