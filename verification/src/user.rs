use vstd::prelude::*;

use crate::id::Id;

verus! {

/// Marks the ids of users.
#[derive(Debug, Clone, Copy, PartialEq, Eq, Structural)]
pub struct UserTag;

/// The id of a user.
pub type UserId = Id<UserTag>;

/// How a user is looked up.
#[derive(Debug, Clone, PartialEq)]
pub enum UserIdentifier {
    Id(UserId),
    Name(String),
    GithubUserId(u64),
    GoogleUserId(String),
}

/// The profile that an identity provider gave, for a user that is to be
/// made of it. A profile is the JSON text of an object.
#[derive(Debug, Clone, PartialEq)]
pub enum CreateUserInput {
    Github { github_user: String },
    Google { google_user: String },
}

/// What is to change of a user.
#[derive(Debug, Clone, PartialEq)]
pub struct UpdateUserInput {
    pub name: Option<String>,
}

/// A principal. It is linked to one identity provider at most, whose
/// profile it holds as JSON text.
#[derive(Debug, Clone, PartialEq)]
pub struct User {
    pub id: UserId,
    pub created_at: u64,
    pub name: String,
    pub github_user: Option<String>,
    pub google_user: Option<String>,
}

/// A user as contracts see it.
pub struct UserView {
    pub id: Seq<char>,
    pub created_at: u64,
    pub name: Seq<char>,
    pub github_user: Option<Seq<char>>,
    pub google_user: Option<Seq<char>>,
}

impl View for User {
    type V = UserView;

    open spec fn view(&self) -> UserView {
        UserView {
            id: self.id@,
            created_at: self.created_at,
            name: self.name@,
            github_user: match self.github_user {
                Some(p) => Some(p@),
                None => None,
            },
            google_user: match self.google_user {
                Some(p) => Some(p@),
                None => None,
            },
        }
    }
}

/// An identifier of a user as contracts see it.
pub enum UserIdentifierView {
    Id(Seq<char>),
    Name(Seq<char>),
    GithubUserId(u64),
    GoogleUserId(Seq<char>),
}

impl View for UserIdentifier {
    type V = UserIdentifierView;

    open spec fn view(&self) -> UserIdentifierView {
        match *self {
            UserIdentifier::Id(id) => UserIdentifierView::Id(id@),
            UserIdentifier::Name(name) => UserIdentifierView::Name(name@),
            UserIdentifier::GithubUserId(id) => UserIdentifierView::GithubUserId(id),
            UserIdentifier::GoogleUserId(id) => UserIdentifierView::GoogleUserId(id@),
        }
    }
}

/// The input that a user is made of as contracts see it.
pub enum CreateUserInputView {
    Github { github_user: Seq<char> },
    Google { google_user: Seq<char> },
}

impl View for CreateUserInput {
    type V = CreateUserInputView;

    open spec fn view(&self) -> CreateUserInputView {
        match *self {
            CreateUserInput::Github { github_user } => CreateUserInputView::Github {
                github_user: github_user@,
            },
            CreateUserInput::Google { google_user } => CreateUserInputView::Google {
                google_user: google_user@,
            },
        }
    }
}

impl UserIdentifierView {
    /// The field of a stored user that the identifier is compared with:
    /// the store's identity field for an id, the name for a name, and the
    /// id within the provider's profile for an id of a provider.
    pub open spec fn field(self) -> Seq<char> {
        match self {
            UserIdentifierView::Id(_) => "_id"@,
            UserIdentifierView::Name(_) => "name"@,
            UserIdentifierView::GithubUserId(_) => "github_user.id"@,
            UserIdentifierView::GoogleUserId(_) => "google_user.id"@,
        }
    }
}

impl UserIdentifier {
    /// The field of a stored user that the identifier is compared with.
    pub fn field(&self) -> (res: &'static str)
        ensures
            res@ == self@.field(),
    {
        match self {
            UserIdentifier::Id(_) => "_id",
            UserIdentifier::Name(_) => "name",
            UserIdentifier::GithubUserId(_) => "github_user.id",
            UserIdentifier::GoogleUserId(_) => "google_user.id",
        }
    }
}

impl User {
    /// A user is linked to one identity provider at most.
    pub open spec fn well_formed(self) -> bool {
        !(self.github_user is Some && self.google_user is Some)
    }
}

} // verus!
