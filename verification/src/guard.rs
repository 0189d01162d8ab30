//! The capability guard: may a viewer read, write or administer what a
//! principal owns?
//!
//! Ownership is not shared: each capability is held by the owner alone. A
//! check has no effect and can be repeated.

use vstd::prelude::*;
use vstd::string::StringExecFns;

use crate::result::{Error, ErrorKind, ErrorView};
use crate::user::{User, UserId};

verus! {

/// What a viewer may be allowed to do.
#[derive(Debug, Clone, Copy, PartialEq, Eq, Structural)]
pub enum Capability {
    Read,
    Write,
    /// For what concerns the account itself, such as its profile.
    Administer,
}

impl Capability {
    /// The verb of the capability.
    pub open spec fn verb(self) -> Seq<char> {
        match self {
            Capability::Read => "read"@,
            Capability::Write => "write"@,
            Capability::Administer => "administer"@,
        }
    }

    /// What a viewer is told who lacks the capability.
    pub open spec fn denial(self) -> Seq<char> {
        "You are not allowed to "@ + self.verb() + " this user"@
    }

    fn denial_text(self) -> (text: String)
        ensures
            text@ == self.denial(),
    {
        let verb = match self {
            Capability::Read => "read",
            Capability::Write => "write",
            Capability::Administer => "administer",
        };
        "You are not allowed to ".to_owned().concat(verb).concat(" this user")
    }
}

/// Whether `viewer` holds a capability on what `owner` owns: the owner
/// alone does.
pub open spec fn permits(viewer: Seq<char>, owner: Seq<char>) -> bool {
    viewer == owner
}

/// Checks that `viewer_id` holds `capability` on what `owner` owns, and
/// hands the owner back. A viewer without it is `Forbidden`.
pub fn check(capability: Capability, viewer_id: &UserId, owner: User) -> (res: Result<
    User,
    Error,
>)
    ensures
        match res {
            Ok(user) => permits(viewer_id@, owner.id@) && user == owner,
            Err(e) => !permits(viewer_id@, owner.id@) && e@ == (ErrorView {
                kind: ErrorKind::Forbidden,
                message: Some(capability.denial()),
            }),
        },
{
    if *viewer_id == owner.id {
        Ok(owner)
    } else {
        Err(Error::forbidden(Some(capability.denial_text())))
    }
}

/// Checks `capability` on the outcome of looking the owner up: a failed
/// lookup stays the failure it is, and a found owner is checked.
pub fn check_found(
    capability: Capability,
    viewer_id: &UserId,
    found: Result<User, Error>,
) -> (res: Result<User, Error>)
    ensures
        match found {
            Ok(owner) => match res {
                Ok(user) => permits(viewer_id@, owner.id@) && user == owner,
                Err(e) => !permits(viewer_id@, owner.id@) && e@ == (ErrorView {
                    kind: ErrorKind::Forbidden,
                    message: Some(capability.denial()),
                }),
            },
            Err(e) => res == Err::<User, Error>(e),
        },
{
    match found {
        Ok(owner) => check(capability, viewer_id, owner),
        Err(e) => Err(e),
    }
}

/// Whether a check passed, for a caller that asks rather than acts: a
/// denial is an answer, any other failure stays a failure.
pub fn holds<T>(checked: Result<T, Error>) -> (res: Result<bool, Error>)
    ensures
        match checked {
            Ok(_) => res == Ok::<bool, Error>(true),
            Err(e) => if e.kind == ErrorKind::Forbidden {
                res == Ok::<bool, Error>(false)
            } else {
                res == Err::<bool, Error>(e)
            },
        },
{
    match checked {
        Ok(_) => Ok(true),
        Err(e) => match e.kind {
            ErrorKind::Forbidden => Ok(false),
            _ => Err(e),
        },
    }
}

} // verus!
