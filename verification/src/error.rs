//! Errors: a kind to branch on, and a message for people.

use vstd::prelude::*;
use vstd::string::StringExecFns;

verus! {

/// What went wrong, as a tag.
#[derive(Debug, Clone, Copy, PartialEq, Eq, Structural)]
pub enum ErrorKind {
    /// A resolver knows no document for a DID that the message refers to.
    DIDNotResolved,
    /// The DID was resolved, but its document lacks the key id.
    DIDUrlNotFound,
    /// No secret is held for a key id that one is needed for.
    SecretNotFound,
    /// The message failed a structural or a cryptographic check.
    Malformed,
    /// A resolver failed while it looked something up.
    IOError,
    /// An internal invariant was broken.
    InvalidState,
    /// Recognised, but not implemented.
    Unsupported,
    /// A value given by the caller is not a DID or a DID URL.
    IllegalArgument,
}

/// An error: its kind and a human-readable message.
#[derive(Debug, Clone, PartialEq, Eq)]
pub struct Error {
    pub kind: ErrorKind,
    pub message: String,
}

/// The mathematical value of an [`Error`].
pub ghost struct ErrorView {
    pub kind: ErrorKind,
    pub message: Seq<char>,
}

impl View for Error {
    type V = ErrorView;

    open spec fn view(&self) -> ErrorView {
        ErrorView { kind: self.kind, message: self.message@ }
    }
}

/// The result of a fallible operation of this library.
pub type Result<T> = core::result::Result<T, Error>;

/// The words that stand for a kind at the start of a printed error.
pub open spec fn kind_label(kind: ErrorKind) -> Seq<char> {
    match kind {
        ErrorKind::DIDNotResolved => "DID not resolved"@,
        ErrorKind::DIDUrlNotFound => "DID URL not found"@,
        ErrorKind::SecretNotFound => "Secret not found"@,
        ErrorKind::Malformed => "Malformed"@,
        ErrorKind::IOError => "IO error"@,
        ErrorKind::InvalidState => "Invalid state"@,
        ErrorKind::Unsupported => "Unsupported"@,
        ErrorKind::IllegalArgument => "Illegal argument"@,
    }
}

/// An error of the given kind and message.
pub open spec fn error_of(kind: ErrorKind, message: Seq<char>) -> ErrorView {
    ErrorView { kind, message }
}

/// An error whose message is `context`, a colon, a space and `cause`.
pub open spec fn error_caused(kind: ErrorKind, context: Seq<char>, cause: Seq<char>) -> ErrorView {
    ErrorView { kind, message: context + ": "@ + cause }
}

/// Whether an error is the failure of a resolver: it is an `IOError`, and
/// the resolver that was asked is one that can fail.
pub open spec fn resolver_failed(e: ErrorView, reliable: bool) -> bool {
    e.kind == ErrorKind::IOError && !reliable
}

impl ErrorKind {
    /// The words that stand for this kind at the start of a printed error.
    pub fn label(&self) -> (r: &'static str)
        ensures
            r@ == kind_label(*self),
    {
        match self {
            ErrorKind::DIDNotResolved => "DID not resolved",
            ErrorKind::DIDUrlNotFound => "DID URL not found",
            ErrorKind::SecretNotFound => "Secret not found",
            ErrorKind::Malformed => "Malformed",
            ErrorKind::IOError => "IO error",
            ErrorKind::InvalidState => "Invalid state",
            ErrorKind::Unsupported => "Unsupported",
            ErrorKind::IllegalArgument => "Illegal argument",
        }
    }
}

impl Error {
    /// The kind of this error.
    pub fn kind(&self) -> (r: ErrorKind)
        ensures
            r == self.kind,
    {
        self.kind
    }

    /// The printed form: the kind's label, a colon, a space and the message.
    pub fn to_string(&self) -> (r: String)
        ensures
            r@ == kind_label(self.kind) + ": "@ + self.message@,
    {
        let mut out = String::from_str(self.kind.label());
        out.append(": ");
        out.append(self.message.as_str());
        out
    }
}

/// Makes an error from a kind and a message.
pub fn err_msg(kind: ErrorKind, message: &str) -> (r: Error)
    ensures
        r@ == error_of(kind, message@),
{
    Error { kind, message: String::from_str(message) }
}

/// Makes an error whose message names what was attempted and why it failed.
pub fn err_caused(kind: ErrorKind, context: &str, cause: &str) -> (r: Error)
    ensures
        r@ == error_caused(kind, context@, cause@),
{
    let mut message = String::from_str(context);
    message.append(": ");
    message.append(cause);
    Error { kind, message }
}

} // verus!
