//! What the user service decides. The store does the reading and writing;
//! what it found is handed in, and what it is to write is handed out.

use vstd::prelude::*;

use crate::guard::{check_found, permits, Capability};
use crate::id::Id;
use crate::json::{json_member, json_member_of, JsonMember, JsonValue};
use crate::result::{Error, ErrorKind, ErrorView};
use crate::user::{CreateUserInput, UpdateUserInput, User, UserId, UserView};

verus! {

/// The user service.
#[derive(Debug, Clone, Copy, PartialEq, Eq, Structural)]
pub struct UserServiceImpl;

/// What an update of a user asks of the store.
#[derive(Debug, PartialEq)]
pub enum UserUpdate {
    /// Nothing is to change: the user is read.
    Unchanged,
    /// The name is set, in one step with reading the user back.
    SetName(String),
}

/// The name that a profile gives: the string under `name`.
pub open spec fn profile_name(profile: Seq<char>) -> Option<Seq<char>> {
    match json_member_of(profile, "name"@) {
        Some(JsonMember::Text(name)) => Some(name),
        _ => None,
    }
}

/// The user made of a profile, with the id and the time given.
pub open spec fn user_of(input: CreateUserInput, id: Seq<char>, created_at: u64) -> Result<
    UserView,
    ErrorView,
> {
    match input {
        CreateUserInput::Github { github_user } => match profile_name(github_user@) {
            Some(name) => Ok(
                UserView {
                    id,
                    created_at,
                    name,
                    github_user: Some(github_user@),
                    google_user: None,
                },
            ),
            None => Err(
                ErrorView {
                    kind: ErrorKind::Unknown,
                    message: Some("Invalid github user name"@),
                },
            ),
        },
        CreateUserInput::Google { google_user } => match profile_name(google_user@) {
            Some(name) => Ok(
                UserView {
                    id,
                    created_at,
                    name,
                    github_user: None,
                    google_user: Some(google_user@),
                },
            ),
            None => Err(
                ErrorView {
                    kind: ErrorKind::Unknown,
                    message: Some("Invalid google user name"@),
                },
            ),
        },
    }
}

fn name_of(profile: &str) -> (name: Option<String>)
    ensures
        match name {
            Some(n) => profile_name(profile@) == Some(n@),
            None => profile_name(profile@) is None,
        },
{
    match json_member(profile, "name") {
        Some(JsonValue::Text(name)) => Some(name),
        _ => None,
    }
}

impl UserServiceImpl {
    /// The user that a lookup found; none is `NotFound`.
    pub fn find_user(found: Option<User>) -> (res: Result<User, Error>)
        ensures
            match found {
                Some(user) => res == Ok::<User, Error>(user),
                None => res matches Err(e) && e@ == (ErrorView {
                    kind: ErrorKind::NotFound,
                    message: Some("User not found"@),
                }),
            },
    {
        match found {
            Some(user) => Ok(user),
            None => Err(Error::not_found(Some("User not found".to_owned()))),
        }
    }

    /// The user that a lookup found; none is `NotFound`.
    pub fn select_user(found: Option<User>) -> (res: Result<User, Error>)
        ensures
            match found {
                Some(user) => res == Ok::<User, Error>(user),
                None => res matches Err(e) && e@ == (ErrorView {
                    kind: ErrorKind::NotFound,
                    message: Some("User not found"@),
                }),
            },
    {
        Self::find_user(found)
    }

    /// The user that is to be stored for a profile of an identity
    /// provider, under the new id `id`, made at `created_at`. The user is
    /// named as the profile says and linked to that provider alone; a
    /// profile without a name is refused as `Unknown`.
    pub fn create_user(input: CreateUserInput, id: String, created_at: u64) -> (res: Result<
        User,
        Error,
    >)
        ensures
            match res {
                Ok(user) => user_of(input, id@, created_at) == Ok::<UserView, ErrorView>(user@)
                    && user.well_formed(),
                Err(e) => user_of(input, id@, created_at) == Err::<UserView, ErrorView>(e@),
            },
    {
        match input {
            CreateUserInput::Github { github_user } => match name_of(github_user.as_str()) {
                Some(name) => Ok(
                    User {
                        id: Id::new(id),
                        created_at,
                        name,
                        github_user: Some(github_user),
                        google_user: None,
                    },
                ),
                None => Err(Error::unknown(Some("Invalid github user name".to_owned()))),
            },
            CreateUserInput::Google { google_user } => match name_of(google_user.as_str()) {
                Some(name) => Ok(
                    User {
                        id: Id::new(id),
                        created_at,
                        name,
                        github_user: None,
                        google_user: Some(google_user),
                    },
                ),
                None => Err(Error::unknown(Some("Invalid google user name".to_owned()))),
            },
        }
    }

    /// What the store is to do for an update of `user_id` by `viewer_id`.
    /// Only the user itself may update it: anyone else is `Forbidden`.
    pub fn update_user(viewer_id: &UserId, user_id: &UserId, input: UpdateUserInput) -> (res:
        Result<UserUpdate, Error>)
        ensures
            match res {
                Ok(UserUpdate::Unchanged) => permits(viewer_id@, user_id@) && input.name is None,
                Ok(UserUpdate::SetName(name)) => permits(viewer_id@, user_id@) && input.name
                    == Some(name),
                Err(e) => !permits(viewer_id@, user_id@) && e@ == (ErrorView {
                    kind: ErrorKind::Forbidden,
                    message: None,
                }),
            },
    {
        if *viewer_id != *user_id {
            return Err(Error::forbidden(None));
        }
        match input.name {
            Some(name) => Ok(UserUpdate::SetName(name)),
            None => Ok(UserUpdate::Unchanged),
        }
    }

    /// The user as the store returned it after an update; none is
    /// `NotFound`.
    pub fn updated_user(found: Option<User>) -> (res: Result<User, Error>)
        ensures
            match found {
                Some(user) => res == Ok::<User, Error>(user),
                None => res matches Err(e) && e@ == (ErrorView {
                    kind: ErrorKind::NotFound,
                    message: Some("User not found"@),
                }),
            },
    {
        Self::find_user(found)
    }

    /// Whether `viewer_id` may read the user that was looked up: the user
    /// itself may, and is handed back; anyone else is `Forbidden`; a failed
    /// lookup stays the failure it is.
    pub fn can_viewer_read_user(viewer_id: &UserId, found: Result<User, Error>) -> (res: Result<
        User,
        Error,
    >)
        ensures
            match found {
                Ok(owner) => match res {
                    Ok(user) => permits(viewer_id@, owner.id@) && user == owner,
                    Err(e) => !permits(viewer_id@, owner.id@) && e@ == (ErrorView {
                        kind: ErrorKind::Forbidden,
                        message: Some(Capability::Read.denial()),
                    }),
                },
                Err(e) => res == Err::<User, Error>(e),
            },
    {
        check_found(Capability::Read, viewer_id, found)
    }

    /// Whether `viewer_id` may write the user that was looked up, as
    /// [`UserServiceImpl::can_viewer_read_user`].
    pub fn can_viewer_write_user(viewer_id: &UserId, found: Result<User, Error>) -> (res: Result<
        User,
        Error,
    >)
        ensures
            match found {
                Ok(owner) => match res {
                    Ok(user) => permits(viewer_id@, owner.id@) && user == owner,
                    Err(e) => !permits(viewer_id@, owner.id@) && e@ == (ErrorView {
                        kind: ErrorKind::Forbidden,
                        message: Some(Capability::Write.denial()),
                    }),
                },
                Err(e) => res == Err::<User, Error>(e),
            },
    {
        check_found(Capability::Write, viewer_id, found)
    }

    /// Whether `viewer_id` may administer the user that was looked up, as
    /// [`UserServiceImpl::can_viewer_read_user`].
    pub fn can_viewer_administer_user(viewer_id: &UserId, found: Result<User, Error>) -> (res:
        Result<User, Error>)
        ensures
            match found {
                Ok(owner) => match res {
                    Ok(user) => permits(viewer_id@, owner.id@) && user == owner,
                    Err(e) => !permits(viewer_id@, owner.id@) && e@ == (ErrorView {
                        kind: ErrorKind::Forbidden,
                        message: Some(Capability::Administer.denial()),
                    }),
                },
                Err(e) => res == Err::<User, Error>(e),
            },
    {
        check_found(Capability::Administer, viewer_id, found)
    }
}

} // verus!
