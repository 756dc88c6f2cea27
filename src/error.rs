//! The library's error type.
use vstd::prelude::*;

use crate::text::append_str;

verus! {

/// The kinds of failure, without their messages.
#[derive(Clone, Copy, PartialEq, Eq, Structural, Debug)]
pub enum ErrorKind {
    OperationFailed,
    InvalidInput,
    Io,
    Network,
    Auth,
    Cache,
    Token,
}

/// An error that occurs during Xet operations; each kind carries a message.
#[derive(Clone, Debug)]
pub enum XetError {
    /// A general operation failure, such as a failed item of a batch.
    OperationFailed { message: String },
    /// A parameter does not meet its requirements, such as a malformed repository identifier.
    InvalidInput { message: String },
    /// Reading or writing the local file system failed.
    IoError { message: String },
    /// Talking to a remote server failed, or its answer lacked what was needed.
    NetworkError { message: String },
    /// The server refused the credentials.
    AuthError { message: String },
    /// The local cache directory could not be read or changed.
    CacheError { message: String },
    /// A credential was malformed or invalid.
    TokenError { message: String },
}

impl View for XetError {
    type V = (ErrorKind, Seq<char>);

    open spec fn view(&self) -> (ErrorKind, Seq<char>) {
        match self {
            XetError::OperationFailed { message } => (ErrorKind::OperationFailed, message@),
            XetError::InvalidInput { message } => (ErrorKind::InvalidInput, message@),
            XetError::IoError { message } => (ErrorKind::Io, message@),
            XetError::NetworkError { message } => (ErrorKind::Network, message@),
            XetError::AuthError { message } => (ErrorKind::Auth, message@),
            XetError::CacheError { message } => (ErrorKind::Cache, message@),
            XetError::TokenError { message } => (ErrorKind::Token, message@),
        }
    }
}

/// The words that the text of an error of kind `k` starts with.
pub open spec fn kind_prefix(k: ErrorKind) -> Seq<char> {
    match k {
        ErrorKind::OperationFailed => "Xet operation failed: "@,
        ErrorKind::InvalidInput => "Invalid input: "@,
        ErrorKind::Io => "IO error: "@,
        ErrorKind::Network => "Network error: "@,
        ErrorKind::Auth => "Authentication error: "@,
        ErrorKind::Cache => "Cache error: "@,
        ErrorKind::Token => "Token error: "@,
    }
}

/// The full text of an error: its kind's words, then its message.
pub open spec fn error_text(e: (ErrorKind, Seq<char>)) -> Seq<char> {
    kind_prefix(e.0) + e.1
}

/// A string holding `s`.
pub fn owned(s: &str) -> (r: String)
    ensures
        r@ == s@,
{
    s.to_owned()
}

/// A string holding `a` followed by `b`.
pub fn joined(a: &str, b: &str) -> (r: String)
    ensures
        r@ == a@ + b@,
{
    let mut r = owned(a);
    append_str(&mut r, b);
    r
}

impl XetError {
    /// An error of kind `kind` with message `message`.
    pub fn with_kind(kind: ErrorKind, message: String) -> (r: XetError)
        ensures
            r@ == (kind, message@),
    {
        match kind {
            ErrorKind::OperationFailed => XetError::OperationFailed { message },
            ErrorKind::InvalidInput => XetError::InvalidInput { message },
            ErrorKind::Io => XetError::IoError { message },
            ErrorKind::Network => XetError::NetworkError { message },
            ErrorKind::Auth => XetError::AuthError { message },
            ErrorKind::Cache => XetError::CacheError { message },
            ErrorKind::Token => XetError::TokenError { message },
        }
    }

    pub fn kind(&self) -> (r: ErrorKind)
        ensures
            r == self@.0,
    {
        match self {
            XetError::OperationFailed { .. } => ErrorKind::OperationFailed,
            XetError::InvalidInput { .. } => ErrorKind::InvalidInput,
            XetError::IoError { .. } => ErrorKind::Io,
            XetError::NetworkError { .. } => ErrorKind::Network,
            XetError::AuthError { .. } => ErrorKind::Auth,
            XetError::CacheError { .. } => ErrorKind::Cache,
            XetError::TokenError { .. } => ErrorKind::Token,
        }
    }

    /// The message that the error carries.
    pub fn message(&self) -> (r: String)
        ensures
            r@ == self@.1,
    {
        match self {
            XetError::OperationFailed { message } => message.clone(),
            XetError::InvalidInput { message } => message.clone(),
            XetError::IoError { message } => message.clone(),
            XetError::NetworkError { message } => message.clone(),
            XetError::AuthError { message } => message.clone(),
            XetError::CacheError { message } => message.clone(),
            XetError::TokenError { message } => message.clone(),
        }
    }

    /// A copy of the error.
    pub fn clone_error(&self) -> (r: XetError)
        ensures
            r@ == self@,
    {
        XetError::with_kind(self.kind(), self.message())
    }

    /// The error as text: the kind's words, then the message (`"Network error: ..."`).
    pub fn describe(&self) -> (r: String)
        ensures
            r@ == error_text(self@),
    {
        let mut r = match self {
            XetError::OperationFailed { .. } => owned("Xet operation failed: "),
            XetError::InvalidInput { .. } => owned("Invalid input: "),
            XetError::IoError { .. } => owned("IO error: "),
            XetError::NetworkError { .. } => owned("Network error: "),
            XetError::AuthError { .. } => owned("Authentication error: "),
            XetError::CacheError { .. } => owned("Cache error: "),
            XetError::TokenError { .. } => owned("Token error: "),
        };
        let m = self.message();
        append_str(&mut r, m.as_str());
        r
    }

    /// The error for a failed HTTP exchange: `status` is the response's status code where
    /// there was one, `status_text` how that status reads (`"404 Not Found"`), `detail` the
    /// transport's own description. 401 and 403 are authentication failures; every other
    /// failure, other client errors included, is a network error.
    pub fn from_http_failure(status: Option<u16>, status_text: &str, detail: &str) -> (r: XetError)
        ensures
            r@ == http_failure(status, status_text@, detail@),
    {
        match status {
            Some(code) => {
                if code == 401 || code == 403 {
                    XetError::AuthError { message: joined("Authentication failed: ", detail) }
                } else if 400 <= code && code < 500 {
                    XetError::NetworkError { message: joined("Client error: ", detail) }
                } else {
                    let mut m = joined("HTTP error ", status_text);
                    append_str(&mut m, ": ");
                    append_str(&mut m, detail);
                    XetError::NetworkError { message: m }
                }
            },
            None => XetError::NetworkError { message: joined("Network error: ", detail) },
        }
    }
}

pub open spec fn http_failure(status: Option<u16>, status_text: Seq<char>, detail: Seq<char>) -> (
    ErrorKind,
    Seq<char>,
) {
    match status {
        Some(code) => if code == 401 || code == 403 {
            (ErrorKind::Auth, "Authentication failed: "@ + detail)
        } else if 400 <= code < 500 {
            (ErrorKind::Network, "Client error: "@ + detail)
        } else {
            (ErrorKind::Network, "HTTP error "@ + status_text + ": "@ + detail)
        },
        None => (ErrorKind::Network, "Network error: "@ + detail),
    }
}

} // verus!
