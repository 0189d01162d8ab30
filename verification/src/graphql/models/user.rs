use vstd::prelude::*;

use crate::graphql::models::paper::PaperCursor;
use crate::graphql::result::Error;
use crate::guard::holds;
use crate::id::Id;
use crate::pagination::Pagination;
use crate::paper::PaperId;
use crate::result::ErrorView;
use crate::text::{decimal, decimal_text};

verus! {

/// How a client names a user: by id, or else by name.
#[derive(Debug, Clone, PartialEq)]
pub struct UserIdentifier {
    pub id: Option<String>,
    pub name: Option<String>,
}

impl UserIdentifier {
    /// The identifier of the core: the id where there is one, else the
    /// name. Neither is refused as `InvalidInput`.
    pub fn try_into(self) -> (res: Result<crate::user::UserIdentifier, Error>)
        ensures
            match res {
                Ok(crate::user::UserIdentifier::Id(id)) => self.id matches Some(given) && id@
                    == given@,
                Ok(crate::user::UserIdentifier::Name(name)) => self.id is None && self.name
                    == Some(name),
                Ok(_) => false,
                Err(e) => self.id is None && self.name is None && e@ == (ErrorView {
                    kind: crate::result::ErrorKind::InvalidInput,
                    message: Some("Invalid UserIdentifier"@),
                }),
            },
    {
        if let Some(id) = self.id {
            Ok(crate::user::UserIdentifier::Id(Id::new(id)))
        } else if let Some(name) = self.name {
            Ok(crate::user::UserIdentifier::Name(name))
        } else {
            Err(Error::invalid_input(Some("Invalid UserIdentifier".to_owned())))
        }
    }
}

/// What is to change of a user.
#[derive(Debug, Clone, PartialEq)]
pub struct UpdateUserInput {
    pub name: Option<String>,
}

impl UpdateUserInput {
    /// The input of the core.
    pub fn into(self) -> (res: crate::user::UpdateUserInput)
        ensures
            res.name == self.name,
    {
        crate::user::UpdateUserInput { name: self.name }
    }
}

/// The window that the arguments of a listing ask for, as numbers. The
/// page size is `first` or `last`, of which exactly one is given; it and
/// the skip are not negative.
pub open spec fn asked_window(skip: Option<i32>, first: Option<i32>, last: Option<i32>) -> Option<
    (bool, Option<u64>, u64),
> {
    let size = match (first, last) {
        (Some(first), None) => Some((false, first)),
        (None, Some(last)) => Some((true, last)),
        _ => None,
    };
    match size {
        Some((before, size)) => if size < 0 || (skip matches Some(s) && s < 0) {
            None
        } else {
            Some(
                (
                    before,
                    match skip {
                        Some(s) => Some(s as u64),
                        None => None,
                    },
                    size as u64,
                ),
            )
        },
        None => None,
    }
}

/// A user as clients see it.
#[derive(Debug, Clone, PartialEq)]
pub struct User(pub crate::user::User);

impl User {
    /// Wraps the value of the core.
    pub fn from(v: crate::user::User) -> (res: Self)
        ensures
            res.0 == v,
    {
        User(v)
    }

    /// The id, as text.
    pub fn id(&self) -> (res: &str)
        ensures
            res@ == self.0.id@,
    {
        self.0.id.as_str()
    }

    /// When the user was made, in decimal.
    pub fn created_at(&self) -> (res: String)
        ensures
            res@ == decimal(self.0.created_at as nat),
    {
        decimal_text(self.0.created_at)
    }

    /// The name of the user.
    pub fn name(&self) -> (res: &str)
        ensures
            res@ == self.0.name@,
    {
        self.0.name.as_str()
    }

    /// The window of the listing of papers that the arguments ask for.
    /// With `first` the window follows `after`, with `last` it precedes
    /// `before`. Both of `first` and `last`, neither, or a negative
    /// number is refused as `InvalidInput`.
    pub fn papers(
        skip: Option<i32>,
        after: Option<PaperCursor>,
        first: Option<i32>,
        before: Option<PaperCursor>,
        last: Option<i32>,
    ) -> (res: Result<Pagination<PaperId>, Error>)
        ensures
            match res {
                Ok(Pagination::After { after: cursor, skip: s, first: size }) => {
                    &&& asked_window(skip, first, last) == Some((false, s, size))
                    &&& match cursor {
                        Some(id) => after matches Some(given) && given.id == id,
                        None => after is None,
                    }
                },
                Ok(Pagination::Before { before: cursor, skip: s, last: size }) => {
                    &&& asked_window(skip, first, last) == Some((true, s, size))
                    &&& match cursor {
                        Some(id) => before matches Some(given) && given.id == id,
                        None => before is None,
                    }
                },
                Err(e) => asked_window(skip, first, last) is None && e@ == (ErrorView {
                    kind: crate::result::ErrorKind::InvalidInput,
                    message: Some("Exactly one of first and last is required, not negative"@),
                }),
            },
    {
        let skip_ok = match skip {
            Some(s) => s >= 0,
            None => true,
        };
        match (first, last) {
            (Some(first), None) if first >= 0 && skip_ok => Ok(
                Pagination::After {
                    after: match after {
                        Some(cursor) => Some(cursor.id),
                        None => None,
                    },
                    skip: match skip {
                        Some(s) => Some(s as u64),
                        None => None,
                    },
                    first: first as u64,
                },
            ),
            (None, Some(last)) if last >= 0 && skip_ok => Ok(
                Pagination::Before {
                    before: match before {
                        Some(cursor) => Some(cursor.id),
                        None => None,
                    },
                    skip: match skip {
                        Some(s) => Some(s as u64),
                        None => None,
                    },
                    last: last as u64,
                },
            ),
            _ => Err(
                Error::invalid_input(
                    Some("Exactly one of first and last is required, not negative".to_owned()),
                ),
            ),
        }
    }

    /// Whether the viewer may read the user, of the outcome of the check:
    /// a denial is the answer no, any other failure stays a failure.
    pub fn can_viewer_read_user(checked: crate::result::Result<crate::user::User>) -> (res: Result<
        bool,
        Error,
    >)
        ensures
            match checked {
                Ok(_) => res == Ok::<bool, Error>(true),
                Err(e) => if e.kind == crate::result::ErrorKind::Forbidden {
                    res == Ok::<bool, Error>(false)
                } else {
                    res matches Err(out) && out@ == e@
                },
            },
    {
        answer_of(checked)
    }

    /// Whether the viewer may write the user, as
    /// [`User::can_viewer_read_user`].
    pub fn can_viewer_write_user(checked: crate::result::Result<crate::user::User>) -> (res:
        Result<bool, Error>)
        ensures
            match checked {
                Ok(_) => res == Ok::<bool, Error>(true),
                Err(e) => if e.kind == crate::result::ErrorKind::Forbidden {
                    res == Ok::<bool, Error>(false)
                } else {
                    res matches Err(out) && out@ == e@
                },
            },
    {
        answer_of(checked)
    }

    /// Whether the viewer may administer the user, as
    /// [`User::can_viewer_read_user`].
    pub fn can_viewer_administer_user(checked: crate::result::Result<crate::user::User>) -> (res:
        Result<bool, Error>)
        ensures
            match checked {
                Ok(_) => res == Ok::<bool, Error>(true),
                Err(e) => if e.kind == crate::result::ErrorKind::Forbidden {
                    res == Ok::<bool, Error>(false)
                } else {
                    res matches Err(out) && out@ == e@
                },
            },
    {
        answer_of(checked)
    }
}

/// The answer that a check comes to, for a client that asks whether it
/// may: a denial is the answer no, any other failure stays a failure.
pub fn answer_of<T>(checked: crate::result::Result<T>) -> (res: Result<bool, Error>)
    ensures
        match checked {
            Ok(_) => res == Ok::<bool, Error>(true),
            Err(e) => if e.kind == crate::result::ErrorKind::Forbidden {
                res == Ok::<bool, Error>(false)
            } else {
                res matches Err(out) && out@ == e@
            },
        },
{
    match holds(checked) {
        Ok(answer) => Ok(answer),
        Err(e) => Err(Error::from(e)),
    }
}

} // verus!
