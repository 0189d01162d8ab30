use vstd::prelude::*;
use vstd::string::StringExecFns;

verus! {

/// The machine-readable kind of an [`Error`]; clients branch on it.
#[derive(Debug, Clone, Copy, PartialEq, Eq, Structural)]
pub enum ErrorKind {
    /// The session token is missing, invalid or expired.
    Unauthorized,
    /// The caller is authenticated but lacks the capability.
    Forbidden,
    /// The resource or principal is absent.
    NotFound,
    /// The request is malformed.
    InvalidInput,
    /// The store or the transport failed; the caller may try again.
    Unavailable,
    /// Anything else.
    Unknown,
}

impl ErrorKind {
    /// The name of the kind as clients see it.
    pub open spec fn name(self) -> Seq<char> {
        match self {
            ErrorKind::Unauthorized => "UNAUTHORIZED"@,
            ErrorKind::Forbidden => "FORBIDDEN"@,
            ErrorKind::NotFound => "NOT_FOUND"@,
            ErrorKind::InvalidInput => "INVALID_INPUT"@,
            ErrorKind::Unavailable => "UNAVAILABLE"@,
            ErrorKind::Unknown => "UNKNOWN"@,
        }
    }

    /// The text of this value.
    pub fn to_string(&self) -> (res: String)
        ensures
            res@ == self.name(),
    {
        match self {
            ErrorKind::Unauthorized => String::from_str("UNAUTHORIZED"),
            ErrorKind::Forbidden => String::from_str("FORBIDDEN"),
            ErrorKind::NotFound => String::from_str("NOT_FOUND"),
            ErrorKind::InvalidInput => String::from_str("INVALID_INPUT"),
            ErrorKind::Unavailable => String::from_str("UNAVAILABLE"),
            ErrorKind::Unknown => String::from_str("UNKNOWN"),
        }
    }
}

/// An error: a stable kind and an optional message for people.
#[derive(Debug, Clone, PartialEq)]
pub struct Error {
    pub kind: ErrorKind,
    pub message: Option<String>,
}

/// A result of the library.
pub type Result<T> = std::result::Result<T, Error>;

/// An [`Error`] as contracts see it: the kind, and the message as text.
pub struct ErrorView {
    pub kind: ErrorKind,
    pub message: Option<Seq<char>>,
}

impl View for Error {
    type V = ErrorView;

    open spec fn view(&self) -> ErrorView {
        ErrorView {
            kind: self.kind,
            message: match self.message {
                Some(m) => Some(m@),
                None => None,
            },
        }
    }
}

impl Error {
    /// What [`Error::to_string`] prints: the kind's name, a colon, and the
    /// message, or `None` where there is no message.
    pub open spec fn text(self) -> Seq<char> {
        self.kind.name() + ": "@ + match self.message {
            Some(m) => m@,
            None => "None"@,
        }
    }

    /// An error of the kind `Unauthorized`.
    pub fn unauthorized(message: Option<String>) -> (res: Self)
        ensures
            res.kind == ErrorKind::Unauthorized,
            res.message == message,
    {
        Error { kind: ErrorKind::Unauthorized, message }
    }

    /// An error of the kind `Forbidden`.
    pub fn forbidden(message: Option<String>) -> (res: Self)
        ensures
            res.kind == ErrorKind::Forbidden,
            res.message == message,
    {
        Error { kind: ErrorKind::Forbidden, message }
    }

    /// An error of the kind `NotFound`.
    pub fn not_found(message: Option<String>) -> (res: Self)
        ensures
            res.kind == ErrorKind::NotFound,
            res.message == message,
    {
        Error { kind: ErrorKind::NotFound, message }
    }

    /// An error of the kind `InvalidInput`.
    pub fn invalid_input(message: Option<String>) -> (res: Self)
        ensures
            res.kind == ErrorKind::InvalidInput,
            res.message == message,
    {
        Error { kind: ErrorKind::InvalidInput, message }
    }

    /// An error of the kind `Unavailable`.
    pub fn unavailable(message: Option<String>) -> (res: Self)
        ensures
            res.kind == ErrorKind::Unavailable,
            res.message == message,
    {
        Error { kind: ErrorKind::Unavailable, message }
    }

    /// An error of the kind `Unknown`.
    pub fn unknown(message: Option<String>) -> (res: Self)
        ensures
            res.kind == ErrorKind::Unknown,
            res.message == message,
    {
        Error { kind: ErrorKind::Unknown, message }
    }

    /// The text of this value.
    pub fn to_string(&self) -> (res: String)
        ensures
            res@ == self.text(),
    {
        let head = self.kind.to_string().concat(": ");
        match &self.message {
            Some(m) => head.concat(m.as_str()),
            None => head.concat("None"),
        }
    }
}

} // verus!
