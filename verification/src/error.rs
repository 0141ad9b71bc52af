//! The failures a batch can end with.

use vstd::prelude::*;
use crate::text::join3;

verus! {

/// What went wrong, by origin.
#[derive(Clone, Copy, Debug, PartialEq, Eq, Structural)]
pub enum ErrorKind {
    /// The stored credentials are missing or were refused.
    Authentication,
    /// An input that claims to be a full URL is not one.
    Normalization,
    /// A remote call for one item of a batch failed.
    Transport,
    /// Progress output could not be written.
    Io,
}

/// A failure that ends a batch: its kind and the text reported with it.
#[derive(Debug, PartialEq, Eq)]
pub struct Error {
    pub kind: ErrorKind,
    pub message: String,
}

/// An [`Error`] with its message as a sequence of characters.
pub struct ErrorView {
    pub kind: ErrorKind,
    pub message: Seq<char>,
}

impl View for Error {
    type V = ErrorView;

    open spec fn view(&self) -> ErrorView {
        ErrorView { kind: self.kind, message: self.message@ }
    }
}

/// What an error of `kind` is called in its description.
pub open spec fn label(kind: ErrorKind) -> Seq<char> {
    match kind {
        ErrorKind::Authentication => "authentication failed"@,
        ErrorKind::Normalization => "invalid reference"@,
        ErrorKind::Transport => "request failed"@,
        ErrorKind::Io => "output failed"@,
    }
}

impl ErrorView {
    /// The error in words: what its kind is called, a colon and a space,
    /// the message.
    pub open spec fn description(self) -> Seq<char> {
        label(self.kind) + ": "@ + self.message
    }
}

impl Error {
    /// An error of the given kind that reports `message`.
    pub fn new(kind: ErrorKind, message: String) -> (error: Error)
        ensures
            error.kind == kind,
            error.message == message,
    {
        Error { kind, message }
    }

    /// The error in words, for the user to read.
    pub fn describe(&self) -> (text: String)
        ensures
            text@ == self@.description(),
    {
        let name = match self.kind {
            ErrorKind::Authentication => "authentication failed",
            ErrorKind::Normalization => "invalid reference",
            ErrorKind::Transport => "request failed",
            ErrorKind::Io => "output failed",
        };
        join3(name, ": ", self.message.as_str())
    }
}

} // verus!
