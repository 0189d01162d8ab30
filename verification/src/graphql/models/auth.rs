use vstd::prelude::*;

use crate::graphql::result::{Error, ErrorKind};
use crate::result::ErrorView;
use crate::text::{decimal, decimal_text};

verus! {

/// What a caller offers in exchange for tokens: one of the four.
#[derive(Debug, Clone, PartialEq)]
pub struct CreateAccessTokenInput {
    pub github: Option<CreateAccessTokenGithubInput>,
    pub google: Option<CreateAccessTokenGoogleInput>,
    pub google_access_token: Option<CreateAccessTokenGoogleAccessTokenInput>,
    pub refresh_token: Option<CreateAccessTokenRefreshTokenInput>,
}

/// A code that GitHub gave to the client `client_id`.
#[derive(Debug, Clone, PartialEq)]
pub struct CreateAccessTokenGithubInput {
    pub client_id: String,
    pub code: String,
}

/// A code that Google gave to the client `client_id`.
#[derive(Debug, Clone, PartialEq)]
pub struct CreateAccessTokenGoogleInput {
    pub client_id: String,
    pub code: String,
}

/// An access token of Google.
#[derive(Debug, Clone, PartialEq)]
pub struct CreateAccessTokenGoogleAccessTokenInput {
    pub access_token: String,
}

/// A refresh token of this service.
#[derive(Debug, Clone, PartialEq)]
pub struct CreateAccessTokenRefreshTokenInput {
    pub refresh_token: String,
}

impl CreateAccessTokenInput {
    /// The input of the core that this input stands for, where exactly one
    /// of the four is given.
    pub open spec fn chosen(self) -> Option<crate::auth::CreateAccessTokenInput> {
        match (self.github, self.google, self.google_access_token, self.refresh_token) {
            (Some(github), None, None, None) => Some(
                crate::auth::CreateAccessTokenInput::Github {
                    client_id: github.client_id,
                    code: github.code,
                },
            ),
            (None, Some(google), None, None) => Some(
                crate::auth::CreateAccessTokenInput::Google {
                    client_id: google.client_id,
                    code: google.code,
                },
            ),
            (None, None, Some(google), None) => Some(
                crate::auth::CreateAccessTokenInput::GoogleAccessToken {
                    access_token: google.access_token,
                },
            ),
            (None, None, None, Some(refresh)) => Some(
                crate::auth::CreateAccessTokenInput::RefreshToken {
                    refresh_token: refresh.refresh_token,
                },
            ),
            _ => None,
        }
    }

    /// The input of the core. None of the four, or more than one, is
    /// refused as `InvalidInput`.
    pub fn try_into(self) -> (res: Result<crate::auth::CreateAccessTokenInput, Error>)
        ensures
            match res {
                Ok(input) => self.chosen() == Some(input),
                Err(e) => self.chosen() is None && e@ == (ErrorView {
                    kind: crate::result::ErrorKind::InvalidInput,
                    message: Some("Invalid CreateAccessTokenInput"@),
                }),
            },
    {
        match (self.github, self.google, self.google_access_token, self.refresh_token) {
            (Some(github), None, None, None) => Ok(
                crate::auth::CreateAccessTokenInput::Github {
                    client_id: github.client_id,
                    code: github.code,
                },
            ),
            (None, Some(google), None, None) => Ok(
                crate::auth::CreateAccessTokenInput::Google {
                    client_id: google.client_id,
                    code: google.code,
                },
            ),
            (None, None, Some(google), None) => Ok(
                crate::auth::CreateAccessTokenInput::GoogleAccessToken {
                    access_token: google.access_token,
                },
            ),
            (None, None, None, Some(refresh)) => Ok(
                crate::auth::CreateAccessTokenInput::RefreshToken {
                    refresh_token: refresh.refresh_token,
                },
            ),
            _ => Err(Error::invalid_input(Some("Invalid CreateAccessTokenInput".to_owned()))),
        }
    }
}

/// The tokens as clients see them.
#[derive(Debug, Clone, PartialEq)]
pub struct AccessToken(pub crate::auth::AccessToken);

impl AccessToken {
    /// The tokens of the core as clients see them.
    pub fn from(v: crate::auth::AccessToken) -> (res: Self)
        ensures
            res.0 == v,
    {
        AccessToken(v)
    }

    /// The session token.
    pub fn access_token(&self) -> (res: &str)
        ensures
            res@ == self.0.access_token@,
    {
        self.0.access_token.as_str()
    }

    /// The type of the session token.
    pub fn token_type(&self) -> (res: &str)
        ensures
            res@ == self.0.token_type@,
    {
        self.0.token_type.as_str()
    }

    /// The seconds that the session token lasts, in decimal.
    pub fn expires_in(&self) -> (res: String)
        ensures
            res@ == decimal(self.0.expires_in as nat),
    {
        decimal_text(self.0.expires_in)
    }

    /// The refresh token.
    pub fn refresh_token(&self) -> (res: &str)
        ensures
            res@ == self.0.refresh_token@,
    {
        self.0.refresh_token.as_str()
    }
}

} // verus!
