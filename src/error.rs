use vstd::prelude::*;

verus! {

/// What went wrong while decoding a key, as a value that contracts speak of.
pub enum Failure {
    InvalidFormat,
    Truncated,
    KeyTypeMismatch,
    UnknownKeyType(Seq<char>),
    UnknownCurve(Seq<char>),
    Base64,
}

/// The kinds of error that decoding can report.
#[derive(Debug)]
pub enum ErrorKind {
    /// Too few tokens in the text form, or a string field longer than the input.
    InvalidFormat,
    /// A read ran past the end of the input.
    Truncated,
    /// The outer label disagrees with the name inside the wire body.
    KeyTypeMismatch,
    /// The algorithm name is not a known one.
    UnknownKeyType(String),
    /// The curve identifier is not a known one.
    UnknownCurve(String),
    /// The base64 body could not be decoded.
    Base64Error,
}

impl View for ErrorKind {
    type V = Failure;

    open spec fn view(&self) -> Failure {
        match self {
            ErrorKind::InvalidFormat => Failure::InvalidFormat,
            ErrorKind::Truncated => Failure::Truncated,
            ErrorKind::KeyTypeMismatch => Failure::KeyTypeMismatch,
            ErrorKind::UnknownKeyType(s) => Failure::UnknownKeyType(s@),
            ErrorKind::UnknownCurve(s) => Failure::UnknownCurve(s@),
            ErrorKind::Base64Error => Failure::Base64,
        }
    }
}

/// An error of this library.
#[derive(Debug)]
pub struct Error {
    pub kind: ErrorKind,
}

impl View for Error {
    type V = Failure;

    open spec fn view(&self) -> Failure {
        self.kind@
    }
}

impl Error {
    /// Builds an error of the given kind.
    pub fn with_kind(kind: ErrorKind) -> (r: Error)
        ensures
            r@ == kind@,
    {
        Error { kind }
    }
}

} // verus!
