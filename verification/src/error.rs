//! The errors of the core: a kind to branch on and a message to show.

use vstd::prelude::*;
use vstd::string::*;

verus! {

/// What went wrong, as far as a caller may want to branch on it.
#[derive(Clone, Copy, Debug, PartialEq, Eq, Structural)]
pub enum ErrorKind {
    /// The caller handed in something that cannot be used, such as an
    /// empty token.
    InvalidInput,
    /// The credential store could not be reached or refused to answer.
    StoreUnavailable,
    /// The credential store holds no entry under the account asked for.
    NotFound,
    /// A remote endpoint could not be reached, or its answer not read.
    TransportError,
    /// The tracker answered with a status outside 200 to 299.
    RemoteError { status: u16 },
    /// The tracker answered 203: the token lacks the scope that the call
    /// needs.
    PermissionDenied,
    /// The user, or the identity provider, declined the device
    /// authorization.
    AuthorizationDenied,
    /// The device code ran out before the user authorized it.
    Expired,
    /// A remote answer was not the JSON that was expected.
    DeserializationError,
}

/// An error of the core. Nothing is retried: every error goes to the
/// immediate caller.
#[derive(Clone, Debug, PartialEq, Eq)]
pub struct CoreError {
    pub kind: ErrorKind,
    pub message: String,
}

/// The mathematical content of a [`CoreError`].
pub struct ErrorModel {
    pub kind: ErrorKind,
    pub message: Seq<char>,
}

impl View for CoreError {
    type V = ErrorModel;

    open spec fn view(&self) -> ErrorModel {
        ErrorModel { kind: self.kind, message: self.message@ }
    }
}

impl CoreError {
    /// An error of the given kind whose message is `message`.
    pub fn new(kind: ErrorKind, message: &str) -> (error: CoreError)
        ensures
            error@ == (ErrorModel { kind, message: message@ }),
    {
        CoreError { kind, message: String::from_str(message) }
    }

    /// An error of the given kind whose message is `prefix` followed by
    /// `detail`.
    pub fn with_detail(kind: ErrorKind, prefix: &str, detail: &str) -> (error: CoreError)
        ensures
            error@ == (ErrorModel { kind, message: prefix@ + detail@ }),
    {
        let mut message = String::from_str(prefix);
        message.append(detail);
        CoreError { kind, message }
    }

    /// The kind of the error.
    pub fn kind(&self) -> (kind: ErrorKind)
        ensures
            kind == self@.kind,
    {
        self.kind
    }

    /// The message of the error, for a person to read.
    pub fn message(&self) -> (message: String)
        ensures
            message@ == self@.message,
    {
        self.message.clone()
    }
}

} // verus!
