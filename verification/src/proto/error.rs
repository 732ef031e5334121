//! The typed error that every fallible operation returns.

use super::status::Status;
use vstd::prelude::*;
use vstd::string::*;

verus! {

/// The kinds of failure of the byte transport: the standard library's
/// `std::io::ErrorKind`, carried through as an opaque value.
#[verifier::external_type_specification]
#[verifier::external_body]
pub struct ExIoErrorKind(std::io::ErrorKind);

/// Protocol type
#[derive(Clone, Copy, Debug, PartialEq, Eq)]
pub enum ProtoType {
    Binary,
}

/// What went wrong.
#[derive(Clone, Copy, Debug, PartialEq, Eq)]
pub enum ErrorKind {
    /// The server answered with a status other than "no error".
    MemCachedError(Status),
    /// The byte transport failed below the protocol layer.
    IoError(std::io::ErrorKind),
    /// A frame broke the header or length rules of the wire format. The
    /// connection it came from must not be used again.
    MalformedFrame,
    /// Anything else, such as a status code that the protocol does not define.
    OtherError,
}

/// What every fallible operation returns.
pub type MemCachedResult<T> = Result<T, Error>;

/// A failure: its kind, a short description that never changes, and the
/// detail of this failure where there is one.
#[derive(Clone, Debug, PartialEq, Eq)]
pub struct Error {
    pub kind: ErrorKind,
    pub desc: &'static str,
    pub detail: Option<String>,
}

/// The mathematical content of an [`Error`].
pub struct ErrorView {
    pub kind: ErrorKind,
    pub desc: Seq<char>,
    pub detail: Option<Seq<char>>,
}

impl ErrorView {
    /// The text shown for the error: its detail if it has one, else its
    /// short description.
    pub open spec fn message(self) -> Seq<char> {
        match self.detail {
            Some(detail) => detail,
            None => self.desc,
        }
    }
}

impl View for Error {
    type V = ErrorView;

    open spec fn view(&self) -> ErrorView {
        ErrorView {
            kind: self.kind,
            desc: self.desc@,
            detail: match self.detail {
                Some(detail) => Some(detail@),
                None => None,
            },
        }
    }
}

impl Error {
    pub fn new(kind: ErrorKind, desc: &'static str, detail: Option<String>) -> (r: Error)
        ensures
            r.kind == kind,
            r.desc == desc,
            r.detail == detail,
            r@ == (ErrorView {
                kind,
                desc: desc@,
                detail: match detail {
                    Some(text) => Some(text@),
                    None => None,
                },
            }),
    {
        Error { kind: kind, desc: desc, detail: detail }
    }

    /// The human-readable text of the error: the detail if present, else the
    /// short description.
    pub fn message(&self) -> (r: String)
        ensures
            r@ == self@.message(),
    {
        match &self.detail {
            Some(detail) => detail.clone(),
            None => self.desc.to_owned(),
        }
    }
}

} // verus!
