use vstd::prelude::*;
use vstd::std_specs::convert::FromSpecImpl;
use vstd::string::StringExecFns;

use crate::result::ErrorView;

verus! {

/// A result of the outer boundary.
pub type Result<T> = std::result::Result<T, Error>;

/// The machine-readable kind of an [`Error`], as clients see it.
#[derive(Debug, Clone, Copy, PartialEq, Eq, Structural)]
pub enum ErrorKind {
    Unauthorized,
    Forbidden,
    NotFound,
    InvalidInput,
    Unavailable,
    Unknown,
}

impl ErrorKind {
    /// The kind of the core that this kind stands for.
    pub open spec fn of_core(kind: crate::result::ErrorKind) -> ErrorKind {
        match kind {
            crate::result::ErrorKind::Unauthorized => ErrorKind::Unauthorized,
            crate::result::ErrorKind::Forbidden => ErrorKind::Forbidden,
            crate::result::ErrorKind::NotFound => ErrorKind::NotFound,
            crate::result::ErrorKind::InvalidInput => ErrorKind::InvalidInput,
            crate::result::ErrorKind::Unavailable => ErrorKind::Unavailable,
            crate::result::ErrorKind::Unknown => ErrorKind::Unknown,
        }
    }

    /// The kind of the core that stands for this kind.
    pub open spec fn to_core(self) -> crate::result::ErrorKind {
        match self {
            ErrorKind::Unauthorized => crate::result::ErrorKind::Unauthorized,
            ErrorKind::Forbidden => crate::result::ErrorKind::Forbidden,
            ErrorKind::NotFound => crate::result::ErrorKind::NotFound,
            ErrorKind::InvalidInput => crate::result::ErrorKind::InvalidInput,
            ErrorKind::Unavailable => crate::result::ErrorKind::Unavailable,
            ErrorKind::Unknown => crate::result::ErrorKind::Unknown,
        }
    }

    /// The name of the kind as clients see it.
    pub open spec fn name(self) -> Seq<char> {
        self.to_core().name()
    }

    /// The text of this value.
    pub fn to_string(&self) -> (res: String)
        ensures
            res@ == self.name(),
    {
        match self {
            ErrorKind::Unauthorized => "UNAUTHORIZED".to_owned(),
            ErrorKind::Forbidden => "FORBIDDEN".to_owned(),
            ErrorKind::NotFound => "NOT_FOUND".to_owned(),
            ErrorKind::InvalidInput => "INVALID_INPUT".to_owned(),
            ErrorKind::Unavailable => "UNAVAILABLE".to_owned(),
            ErrorKind::Unknown => "UNKNOWN".to_owned(),
        }
    }
}

/// An error as clients see it: a stable kind and an optional message for
/// people.
#[derive(Debug, Clone, PartialEq)]
pub struct Error {
    pub kind: ErrorKind,
    pub message: Option<String>,
}

impl View for Error {
    type V = ErrorView;

    /// The error as the error of the core that it stands for.
    open spec fn view(&self) -> ErrorView {
        ErrorView {
            kind: self.kind.to_core(),
            message: match self.message {
                Some(m) => Some(m@),
                None => None,
            },
        }
    }
}

impl From<crate::result::Error> for Error {
    fn from(e: crate::result::Error) -> (res: Self) {
        Error {
            kind: match e.kind {
                crate::result::ErrorKind::Unauthorized => ErrorKind::Unauthorized,
                crate::result::ErrorKind::Forbidden => ErrorKind::Forbidden,
                crate::result::ErrorKind::NotFound => ErrorKind::NotFound,
                crate::result::ErrorKind::InvalidInput => ErrorKind::InvalidInput,
                crate::result::ErrorKind::Unavailable => ErrorKind::Unavailable,
                crate::result::ErrorKind::Unknown => ErrorKind::Unknown,
            },
            message: e.message,
        }
    }
}

impl FromSpecImpl<crate::result::Error> for Error {
    open spec fn obeys_from_spec() -> bool {
        true
    }

    /// The same kind and the same message.
    open spec fn from_spec(e: crate::result::Error) -> Self {
        Error { kind: ErrorKind::of_core(e.kind), message: e.message }
    }
}

impl Error {
    /// What [`Error::to_string`] prints: the kind's name, a colon, and the
    /// message, or `None` where there is no message.
    pub open spec fn text(self) -> Seq<char> {
        self.kind.name() + ": "@ + match self.message {
            Some(m) => m@,
            None => "None"@,
        }
    }

    /// An error of the kind `Unauthorized`.
    pub fn unauthorized(message: Option<String>) -> (res: Self)
        ensures
            res.kind == ErrorKind::Unauthorized,
            res.message == message,
    {
        Error { kind: ErrorKind::Unauthorized, message }
    }

    /// An error of the kind `Forbidden`.
    pub fn forbidden(message: Option<String>) -> (res: Self)
        ensures
            res.kind == ErrorKind::Forbidden,
            res.message == message,
    {
        Error { kind: ErrorKind::Forbidden, message }
    }

    /// An error of the kind `InvalidInput`.
    pub fn invalid_input(message: Option<String>) -> (res: Self)
        ensures
            res.kind == ErrorKind::InvalidInput,
            res.message == message,
    {
        Error { kind: ErrorKind::InvalidInput, message }
    }

    /// An error of the kind `Unknown`.
    pub fn unknown(message: Option<String>) -> (res: Self)
        ensures
            res.kind == ErrorKind::Unknown,
            res.message == message,
    {
        Error { kind: ErrorKind::Unknown, message }
    }

    /// The error of the core that this error stands for: the same kind
    /// and the same message.
    pub fn into_core(self) -> (res: crate::result::Error)
        ensures
            res@ == self@,
            res.message == self.message,
    {
        crate::result::Error {
            kind: match self.kind {
                ErrorKind::Unauthorized => crate::result::ErrorKind::Unauthorized,
                ErrorKind::Forbidden => crate::result::ErrorKind::Forbidden,
                ErrorKind::NotFound => crate::result::ErrorKind::NotFound,
                ErrorKind::InvalidInput => crate::result::ErrorKind::InvalidInput,
                ErrorKind::Unavailable => crate::result::ErrorKind::Unavailable,
                ErrorKind::Unknown => crate::result::ErrorKind::Unknown,
            },
            message: self.message,
        }
    }

    /// The text of this value.
    pub fn to_string(&self) -> (res: String)
        ensures
            res@ == self.text(),
    {
        let head = self.kind.to_string().concat(": ");
        match &self.message {
            Some(m) => head.concat(m.as_str()),
            None => head.concat("None"),
        }
    }
}

} // verus!
