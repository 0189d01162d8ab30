use vstd::prelude::*;

use crate::auth_service::{
    AccessTokenConfig, AuthServiceImpl, GithubAuthConfig, GithubAuthConfigItem, GoogleAuthConfig,
    GoogleAuthConfigItem, RefreshTokenConfig,
};
use crate::graphql::logger::LogLevelFilter;
use crate::graphql::models::paper::PaperTokenConfig;

verus! {

/// What the server is configured with.
#[derive(Debug, Clone, PartialEq)]
pub struct Config {
    /// The address to listen on, as text.
    pub address: String,
    pub port: u16,
    pub cors: bool,
    pub log_level: LogLevelFilter,
    pub access_token: ConfigAccessToken,
    pub refresh_token: ConfigAccessToken,
    pub paper_token: ConfigAccessToken,
    pub storage: ConfigStorage,
    pub github_auth: Vec<ConfigGithubAuth>,
    pub google_auth: Vec<ConfigGoogleAuth>,
}

/// How long a kind of token lasts, and the secret that signs it.
#[derive(Debug, Clone, PartialEq)]
pub struct ConfigAccessToken {
    pub expires_in_sec: u64,
    pub secret: String,
}

/// Where the store is, and how its collections are named.
#[derive(Debug, Clone, PartialEq)]
pub struct ConfigStorage {
    pub uri: String,
    pub database: String,
    pub collection_user: String,
    pub collection_paper: String,
    pub collection_paper_content: String,
}

/// A client that is registered with GitHub.
#[derive(Debug, Clone, PartialEq)]
pub struct ConfigGithubAuth {
    pub client_id: String,
    pub client_secret: String,
}

/// A client that is registered with Google.
#[derive(Debug, Clone, PartialEq)]
pub struct ConfigGoogleAuth {
    pub client_id: String,
    pub client_secret: String,
    pub redirect_uri: String,
}

impl Config {
    /// The auth service that the configuration describes: the lifetimes
    /// and secrets of the tokens, and the clients of the providers in
    /// their order.
    pub fn auth_service(&self) -> (res: AuthServiceImpl)
        ensures
            res.access_token_config.expires_in_sec == self.access_token.expires_in_sec,
            res.access_token_config.secret == self.access_token.secret,
            res.refresh_token_config.expires_in_sec == self.refresh_token.expires_in_sec,
            res.refresh_token_config.secret == self.refresh_token.secret,
            res.github_auth_config.list@.len() == self.github_auth@.len(),
            forall|i: int|
                0 <= i < self.github_auth@.len() ==> {
                    &&& (#[trigger] res.github_auth_config.list@[i]).client_id
                        == self.github_auth@[i].client_id
                    &&& res.github_auth_config.list@[i].client_secret
                        == self.github_auth@[i].client_secret
                },
            res.google_auth_config.list@.len() == self.google_auth@.len(),
            forall|i: int|
                0 <= i < self.google_auth@.len() ==> {
                    &&& (#[trigger] res.google_auth_config.list@[i]).client_id
                        == self.google_auth@[i].client_id
                    &&& res.google_auth_config.list@[i].client_secret
                        == self.google_auth@[i].client_secret
                    &&& res.google_auth_config.list@[i].redirect_uri
                        == self.google_auth@[i].redirect_uri
                },
    {
        let mut github: Vec<GithubAuthConfigItem> = Vec::new();
        let mut i: usize = 0;
        while i < self.github_auth.len()
            invariant
                i <= self.github_auth@.len(),
                github@.len() == i,
                forall|k: int|
                    0 <= k < i ==> {
                        &&& (#[trigger] github@[k]).client_id == self.github_auth@[k].client_id
                        &&& github@[k].client_secret == self.github_auth@[k].client_secret
                    },
            decreases self.github_auth@.len() - i,
        {
            github.push(
                GithubAuthConfigItem {
                    client_id: self.github_auth[i].client_id.clone(),
                    client_secret: self.github_auth[i].client_secret.clone(),
                },
            );
            i = i + 1;
        }
        let mut google: Vec<GoogleAuthConfigItem> = Vec::new();
        let mut j: usize = 0;
        while j < self.google_auth.len()
            invariant
                j <= self.google_auth@.len(),
                google@.len() == j,
                forall|k: int|
                    0 <= k < j ==> {
                        &&& (#[trigger] google@[k]).client_id == self.google_auth@[k].client_id
                        &&& google@[k].client_secret == self.google_auth@[k].client_secret
                        &&& google@[k].redirect_uri == self.google_auth@[k].redirect_uri
                    },
            decreases self.google_auth@.len() - j,
        {
            google.push(
                GoogleAuthConfigItem {
                    client_id: self.google_auth[j].client_id.clone(),
                    client_secret: self.google_auth[j].client_secret.clone(),
                    redirect_uri: self.google_auth[j].redirect_uri.clone(),
                },
            );
            j = j + 1;
        }
        AuthServiceImpl {
            access_token_config: AccessTokenConfig {
                expires_in_sec: self.access_token.expires_in_sec,
                secret: self.access_token.secret.clone(),
            },
            refresh_token_config: RefreshTokenConfig {
                expires_in_sec: self.refresh_token.expires_in_sec,
                secret: self.refresh_token.secret.clone(),
            },
            github_auth_config: GithubAuthConfig { list: github },
            google_auth_config: GoogleAuthConfig { list: google },
        }
    }

    /// The configuration of the tokens for papers.
    pub fn paper_token_config(&self) -> (res: PaperTokenConfig)
        ensures
            res.expires_in_sec == self.paper_token.expires_in_sec,
            res.secret == self.paper_token.secret,
    {
        PaperTokenConfig {
            expires_in_sec: self.paper_token.expires_in_sec,
            secret: self.paper_token.secret.clone(),
        }
    }
}

} // verus!
