//! The exchange of a credential for tokens.
//!
//! A caller offers a code or a token of an identity provider, or a refresh
//! token. The flow of this module decides what is asked of the provider and
//! of the user service, and in the end issues the tokens. It does no I/O:
//! it hands out an [`AuthRequest`] and takes the [`AuthReply`] back.

use vstd::prelude::*;
use vstd::string::StringExecFns;
use vstd::utf8::encode_utf8;

use crate::auth::{
    accepted, refusal, AccessToken, AccessTokenPayload, AccessTokenView, CreateAccessTokenInput,
};
use crate::clock::now_sec;
use crate::id::Id;
use crate::json::{json_member, json_member_of, JsonMember, JsonValue};
use crate::result::{Error, ErrorKind, ErrorView};
use crate::user::{
    CreateUserInput, CreateUserInputView, User, UserIdentifier, UserIdentifierView,
};

verus! {

/// How long a session token lasts, and the secret that signs it.
#[derive(Debug, Clone, PartialEq)]
pub struct AccessTokenConfig {
    pub expires_in_sec: u64,
    pub secret: String,
}

/// How long a refresh token lasts, and the secret that signs it.
#[derive(Debug, Clone, PartialEq)]
pub struct RefreshTokenConfig {
    pub expires_in_sec: u64,
    pub secret: String,
}

/// The clients that are registered with GitHub.
#[derive(Debug, Clone, PartialEq)]
pub struct GithubAuthConfig {
    pub list: Vec<GithubAuthConfigItem>,
}

/// A client that is registered with GitHub.
#[derive(Debug, Clone, PartialEq)]
pub struct GithubAuthConfigItem {
    pub client_id: String,
    pub client_secret: String,
}

/// The clients that are registered with Google.
#[derive(Debug, Clone, PartialEq)]
pub struct GoogleAuthConfig {
    pub list: Vec<GoogleAuthConfigItem>,
}

/// A client that is registered with Google.
#[derive(Debug, Clone, PartialEq)]
pub struct GoogleAuthConfigItem {
    pub client_id: String,
    pub client_secret: String,
    pub redirect_uri: String,
}

/// The auth service, with what it is configured with.
#[derive(Debug, Clone, PartialEq)]
pub struct AuthServiceImpl {
    pub access_token_config: AccessTokenConfig,
    pub refresh_token_config: RefreshTokenConfig,
    pub github_auth_config: GithubAuthConfig,
    pub google_auth_config: GoogleAuthConfig,
}

/// An identity provider.
#[derive(Debug, Clone, Copy, PartialEq, Eq, Structural)]
pub enum Provider {
    Github,
    Google,
}

/// What the flow asks of its collaborators.
#[derive(Debug, PartialEq)]
pub enum AuthRequest {
    /// The provider is to exchange `code` for an access token of its own.
    Exchange {
        provider: Provider,
        client_id: String,
        client_secret: String,
        code: String,
        redirect_uri: Option<String>,
    },
    /// The provider is to give the profile that `access_token` stands for.
    Profile { provider: Provider, access_token: String },
    /// The user service is to look a user up.
    SelectUser(UserIdentifier),
    /// The user service is to make a user.
    CreateUser(CreateUserInput),
}

/// A request of the flow as contracts see it.
pub enum AuthRequestView {
    Exchange {
        provider: Provider,
        client_id: Seq<char>,
        client_secret: Seq<char>,
        code: Seq<char>,
        redirect_uri: Option<Seq<char>>,
    },
    Profile { provider: Provider, access_token: Seq<char> },
    SelectUser(UserIdentifierView),
    CreateUser(CreateUserInputView),
}

impl View for AuthRequest {
    type V = AuthRequestView;

    open spec fn view(&self) -> AuthRequestView {
        match *self {
            AuthRequest::Exchange {
                provider,
                client_id,
                client_secret,
                code,
                redirect_uri,
            } => AuthRequestView::Exchange {
                provider,
                client_id: client_id@,
                client_secret: client_secret@,
                code: code@,
                redirect_uri: match redirect_uri {
                    Some(uri) => Some(uri@),
                    None => None,
                },
            },
            AuthRequest::Profile { provider, access_token } => AuthRequestView::Profile {
                provider,
                access_token: access_token@,
            },
            AuthRequest::SelectUser(identifier) => AuthRequestView::SelectUser(identifier@),
            AuthRequest::CreateUser(input) => AuthRequestView::CreateUser(input@),
        }
    }
}

/// The method of a request to a provider.
#[derive(Debug, Clone, Copy, PartialEq, Eq, Structural)]
pub enum HttpMethod {
    Get,
    Post,
}

/// What is sent to a provider over HTTP, without a body.
#[derive(Debug, PartialEq)]
pub struct HttpRequest {
    pub method: HttpMethod,
    pub uri: String,
    /// The headers, each a name and a value.
    pub headers: Vec<(String, String)>,
}

/// A request to a provider as contracts see it.
pub struct HttpRequestView {
    pub method: HttpMethod,
    pub uri: Seq<char>,
    pub headers: Seq<(Seq<char>, Seq<char>)>,
}

impl View for HttpRequest {
    type V = HttpRequestView;

    open spec fn view(&self) -> HttpRequestView {
        HttpRequestView {
            method: self.method,
            uri: self.uri@,
            headers: self.headers@.map_values(|h: (String, String)| (h.0@, h.1@)),
        }
    }
}

/// What is sent to a provider for `request`; nothing for a request to the
/// user service. A code is posted to the provider's token endpoint, with
/// the client and its secret in the query; a profile is read from the
/// provider's user endpoint, with the access token as authorization.
pub open spec fn provider_request(request: AuthRequestView) -> Option<HttpRequestView> {
    match request {
        AuthRequestView::Exchange {
            provider: Provider::Github,
            client_id,
            client_secret,
            code,
            ..
        } => Some(
            HttpRequestView {
                method: HttpMethod::Post,
                uri: "https://github.com/login/oauth/access_token?client_id="@ + client_id
                    + "&client_secret="@ + client_secret + "&code="@ + code,
                headers: seq![("Accept"@, "application/json"@)],
            },
        ),
        AuthRequestView::Exchange {
            provider: Provider::Google,
            client_id,
            client_secret,
            code,
            redirect_uri,
        } => Some(
            HttpRequestView {
                method: HttpMethod::Post,
                uri:
                    "https://oauth2.googleapis.com/token?grant_type=authorization_code&client_id="@
                    + client_id + "&client_secret="@ + client_secret + "&code="@ + code
                    + "&redirect_uri="@ + match redirect_uri {
                    Some(uri) => uri,
                    None => Seq::empty(),
                },
                headers: seq![("Accept"@, "application/json"@), ("Content-Length"@, "0"@)],
            },
        ),
        AuthRequestView::Profile { provider: Provider::Github, access_token } => Some(
            HttpRequestView {
                method: HttpMethod::Get,
                uri: "https://api.github.com/user"@,
                headers: seq![
                    ("Accept"@, "application/json"@),
                    ("Authorization"@, "token "@ + access_token),
                    ("User-Agent"@, "hyper"@),
                ],
            },
        ),
        AuthRequestView::Profile { provider: Provider::Google, access_token } => Some(
            HttpRequestView {
                method: HttpMethod::Get,
                uri: "https://www.googleapis.com/oauth2/v1/userinfo"@,
                headers: seq![
                    ("Accept"@, "application/json"@),
                    ("Authorization"@, "Bearer "@ + access_token),
                    ("User-Agent"@, "hyper"@),
                    ("Content-Length"@, "0"@),
                ],
            },
        ),
        _ => None,
    }
}

fn header(name: &str, value: String) -> (res: (String, String))
    ensures
        res.0@ == name@,
        res.1@ == value@,
{
    (name.to_owned(), value)
}

impl AuthRequest {
    /// What is sent to a provider for this request; nothing for a request
    /// to the user service.
    pub fn http(&self) -> (res: Option<HttpRequest>)
        ensures
            match res {
                Some(r) => provider_request(self@) == Some(r@),
                None => provider_request(self@) is None,
            },
    {
        match self {
            AuthRequest::Exchange { provider, client_id, client_secret, code, redirect_uri } => {
                let uri = match provider {
                    Provider::Github => {
                        "https://github.com/login/oauth/access_token?client_id=".to_owned().concat(
                            client_id.as_str(),
                        ).concat("&client_secret=").concat(client_secret.as_str()).concat(
                            "&code=",
                        ).concat(code.as_str())
                    },
                    Provider::Google => {
                        let uri =
                            "https://oauth2.googleapis.com/token?grant_type=authorization_code&client_id=".to_owned().concat(
                            client_id.as_str(),
                        ).concat("&client_secret=").concat(client_secret.as_str()).concat(
                            "&code=",
                        ).concat(code.as_str()).concat("&redirect_uri=");
                        match redirect_uri {
                            Some(redirect) => uri.concat(redirect.as_str()),
                            None => {
                                assert(uri@ + Seq::<char>::empty() =~= uri@);
                                uri
                            },
                        }
                    },
                };
                let mut headers: Vec<(String, String)> = Vec::new();
                headers.push(header("Accept", "application/json".to_owned()));
                match provider {
                    Provider::Github => {},
                    Provider::Google => {
                        headers.push(header("Content-Length", "0".to_owned()));
                    },
                }
                let request = HttpRequest { method: HttpMethod::Post, uri, headers };
                assert(request@.headers =~= provider_request(self@)->0.headers);
                Some(request)
            },
            AuthRequest::Profile { provider, access_token } => {
                let mut headers: Vec<(String, String)> = Vec::new();
                headers.push(header("Accept", "application/json".to_owned()));
                let uri = match provider {
                    Provider::Github => {
                        headers.push(
                            header(
                                "Authorization",
                                "token ".to_owned().concat(access_token.as_str()),
                            ),
                        );
                        headers.push(header("User-Agent", "hyper".to_owned()));
                        "https://api.github.com/user".to_owned()
                    },
                    Provider::Google => {
                        headers.push(
                            header(
                                "Authorization",
                                "Bearer ".to_owned().concat(access_token.as_str()),
                            ),
                        );
                        headers.push(header("User-Agent", "hyper".to_owned()));
                        headers.push(header("Content-Length", "0".to_owned()));
                        "https://www.googleapis.com/oauth2/v1/userinfo".to_owned()
                    },
                };
                let request = HttpRequest { method: HttpMethod::Get, uri, headers };
                assert(request@.headers =~= provider_request(self@)->0.headers);
                Some(request)
            },
            _ => None,
        }
    }
}

/// What a provider answered over HTTP.
#[derive(Debug, PartialEq)]
pub struct HttpReply {
    /// The status code.
    pub status: u16,
    /// The status as text, for people.
    pub status_text: String,
    pub body: String,
}

/// A provider's answer as contracts see it.
pub struct HttpReplyView {
    pub status: u16,
    pub status_text: Seq<char>,
    pub body: Seq<char>,
}

impl View for HttpReply {
    type V = HttpReplyView;

    open spec fn view(&self) -> HttpReplyView {
        HttpReplyView { status: self.status, status_text: self.status_text@, body: self.body@ }
    }
}

/// What a collaborator answered.
#[derive(Debug, PartialEq)]
pub enum AuthReply {
    /// A provider: its answer, or why none came.
    Http(Result<HttpReply, String>),
    /// The user service.
    User(Result<User, Error>),
}

/// Where the flow stands: what was asked last.
#[derive(Debug, PartialEq)]
pub enum AuthFlow {
    /// A provider was asked to exchange a code.
    Exchanging(Provider),
    /// A provider was asked for a profile.
    Profiling(Provider),
    /// The user service was asked for a user, who is made of the input
    /// where there is one and the user is not found.
    Selecting(Option<CreateUserInput>),
    /// The user service was asked to make a user.
    Creating,
}

/// The flow as contracts see it.
pub enum AuthFlowView {
    Exchanging(Provider),
    Profiling(Provider),
    Selecting(Option<CreateUserInputView>),
    Creating,
}

impl View for AuthFlow {
    type V = AuthFlowView;

    open spec fn view(&self) -> AuthFlowView {
        match *self {
            AuthFlow::Exchanging(provider) => AuthFlowView::Exchanging(provider),
            AuthFlow::Profiling(provider) => AuthFlowView::Profiling(provider),
            AuthFlow::Selecting(Some(input)) => AuthFlowView::Selecting(Some(input@)),
            AuthFlow::Selecting(None) => AuthFlowView::Selecting(None),
            AuthFlow::Creating => AuthFlowView::Creating,
        }
    }
}

/// What comes of one step of the flow.
#[derive(Debug, PartialEq)]
pub enum AuthStep {
    /// A collaborator is to answer the request; the answer goes to
    /// [`AuthServiceImpl::advance`] with the flow.
    Ask(AuthFlow, AuthRequest),
    /// The flow is over.
    Finished(Result<AccessToken, Error>),
}

/// A step of the flow as contracts see it.
pub enum AuthStepView {
    Ask(AuthFlowView, AuthRequestView),
    Finished(Result<AccessTokenView, ErrorView>),
}

impl View for AuthStep {
    type V = AuthStepView;

    open spec fn view(&self) -> AuthStepView {
        match *self {
            AuthStep::Ask(flow, request) => AuthStepView::Ask(flow@, request@),
            AuthStep::Finished(Ok(token)) => AuthStepView::Finished(Ok(token@)),
            AuthStep::Finished(Err(e)) => AuthStepView::Finished(Err(e@)),
        }
    }
}

/// A failure of the flow that is not the caller's credential: `Unknown`.
pub open spec fn failed(message: Seq<char>) -> AuthStepView {
    AuthStepView::Finished(Err(ErrorView { kind: ErrorKind::Unknown, message: Some(message) }))
}

/// The secret of the first client `client_id` of the list.
pub open spec fn github_client(list: Seq<GithubAuthConfigItem>, client_id: Seq<char>) -> Option<
    Seq<char>,
>
    decreases list.len(),
{
    if list.len() == 0 {
        None
    } else if list[0].client_id@ == client_id {
        Some(list[0].client_secret@)
    } else {
        github_client(list.drop_first(), client_id)
    }
}

/// The secret and the redirect address of the first client `client_id` of
/// the list.
pub open spec fn google_client(list: Seq<GoogleAuthConfigItem>, client_id: Seq<char>) -> Option<
    (Seq<char>, Seq<char>),
>
    decreases list.len(),
{
    if list.len() == 0 {
        None
    } else if list[0].client_id@ == client_id {
        Some((list[0].client_secret@, list[0].redirect_uri@))
    } else {
        google_client(list.drop_first(), client_id)
    }
}

/// The string under `name` in the JSON object `text`.
pub open spec fn text_member(text: Seq<char>, name: Seq<char>) -> Option<Seq<char>> {
    match json_member_of(text, name) {
        Some(JsonMember::Text(t)) => Some(t),
        _ => None,
    }
}

/// The access token that a provider's answer to an exchange holds, or why
/// it holds none. An answer that did not come, or came with another status
/// than 200, holds none. GitHub answers with the token, or else with a
/// description of the error; Google answers with the token and what goes
/// with it.
pub open spec fn exchanged(provider: Provider, reply: Result<HttpReplyView, Seq<char>>) -> Result<
    Seq<char>,
    Seq<char>,
> {
    match reply {
        Err(message) => Err(message),
        Ok(reply) => if reply.status != 200 {
            Err(reply.status_text)
        } else {
            match provider {
                Provider::Github => match text_member(reply.body, "access_token"@) {
                    Some(token) => Ok(token),
                    None => match text_member(reply.body, "error_description"@) {
                        Some(description) => Err(description),
                        None => Err(reply.body),
                    },
                },
                Provider::Google => match text_member(reply.body, "access_token"@) {
                    Some(token) => if json_member_of(reply.body, "expires_in"@) matches Some(
                        JsonMember::Unsigned(_),
                    ) && text_member(reply.body, "scope"@) is Some && text_member(
                        reply.body,
                        "token_type"@,
                    ) is Some && text_member(reply.body, "id_token"@) is Some {
                        Ok(token)
                    } else {
                        Err("Invalid google token response"@)
                    },
                    None => Err("Invalid google token response"@),
                },
            }
        },
    }
}

/// Whom a provider's answer to the question for a profile identifies, and
/// the input that such a user is made of, or why it identifies nobody. The
/// body of the answer is the profile. GitHub identifies by a number under
/// `id`, Google by a string.
pub open spec fn profiled(provider: Provider, reply: Result<HttpReplyView, Seq<char>>) -> Result<
    (UserIdentifierView, CreateUserInputView),
    Seq<char>,
> {
    match reply {
        Err(message) => Err(message),
        Ok(reply) => if reply.status != 200 {
            Err(reply.status_text)
        } else {
            match provider {
                Provider::Github => match json_member_of(reply.body, "id"@) {
                    Some(JsonMember::Unsigned(id)) => Ok(
                        (
                            UserIdentifierView::GithubUserId(id),
                            CreateUserInputView::Github { github_user: reply.body },
                        ),
                    ),
                    Some(JsonMember::Number) => Err("Invalid github user"@),
                    _ => Err("Invalid github user response"@),
                },
                Provider::Google => match json_member_of(reply.body, "id"@) {
                    Some(JsonMember::Text(id)) => Ok(
                        (
                            UserIdentifierView::GoogleUserId(id),
                            CreateUserInputView::Google { google_user: reply.body },
                        ),
                    ),
                    _ => Err("Invalid google user response"@),
                },
            }
        },
    }
}

/// The configuration of the auth service as contracts see it: the
/// secrets as the bytes that sign.
pub struct AuthConfigView {
    pub access: (u64, Seq<u8>),
    pub refresh: (u64, Seq<u8>),
    pub github: Seq<GithubAuthConfigItem>,
    pub google: Seq<GoogleAuthConfigItem>,
}

impl View for AuthServiceImpl {
    type V = AuthConfigView;

    open spec fn view(&self) -> AuthConfigView {
        AuthConfigView {
            access: (
                self.access_token_config.expires_in_sec,
                encode_utf8(self.access_token_config.secret@),
            ),
            refresh: (
                self.refresh_token_config.expires_in_sec,
                encode_utf8(self.refresh_token_config.secret@),
            ),
            github: self.github_auth_config.list@,
            google: self.google_auth_config.list@,
        }
    }
}

impl AuthConfigView {
    /// The end of a flow that has found its user: the tokens are issued.
    pub open spec fn issue(self, user: User, now_sec: u64) -> AuthStepView {
        AuthStepView::Finished(AccessToken::issued(user.id@, now_sec, self.access, self.refresh))
    }

    /// The first step of the exchange of `input` at the time `now_sec`. A
    /// code goes to the provider, with the secret of the client that it was
    /// given to; a client that is not configured is a failure. A token of a
    /// provider leads to the profile at once. A refresh token is checked as
    /// a session token is, under the secret of refresh tokens, and leads to
    /// its user; one that is not accepted is `Unauthorized`.
    pub open spec fn begin(self, input: CreateAccessTokenInput, now_sec: u64) -> AuthStepView {
        match input {
            CreateAccessTokenInput::Github { client_id, code } => match github_client(
                self.github,
                client_id@,
            ) {
                Some(client_secret) => AuthStepView::Ask(
                    AuthFlowView::Exchanging(Provider::Github),
                    AuthRequestView::Exchange {
                        provider: Provider::Github,
                        client_id: client_id@,
                        client_secret,
                        code: code@,
                        redirect_uri: None,
                    },
                ),
                None => failed("Invalid client_id"@),
            },
            CreateAccessTokenInput::Google { client_id, code } => match google_client(
                self.google,
                client_id@,
            ) {
                Some((client_secret, redirect_uri)) => AuthStepView::Ask(
                    AuthFlowView::Exchanging(Provider::Google),
                    AuthRequestView::Exchange {
                        provider: Provider::Google,
                        client_id: client_id@,
                        client_secret,
                        code: code@,
                        redirect_uri: Some(redirect_uri),
                    },
                ),
                None => failed("Invalid client_id"@),
            },
            CreateAccessTokenInput::GoogleAccessToken { access_token } => AuthStepView::Ask(
                AuthFlowView::Profiling(Provider::Google),
                AuthRequestView::Profile { provider: Provider::Google, access_token: access_token@ },
            ),
            CreateAccessTokenInput::RefreshToken { refresh_token } => match accepted(
                refresh_token@,
                self.refresh.1,
                now_sec,
            ) {
                Some(claims) => AuthStepView::Ask(
                    AuthFlowView::Selecting(None),
                    AuthRequestView::SelectUser(UserIdentifierView::Id(claims.sub)),
                ),
                None => AuthStepView::Finished(
                    Err(
                        ErrorView {
                            kind: ErrorKind::Unauthorized,
                            message: Some(refusal(refresh_token@, self.refresh.1, now_sec)),
                        },
                    ),
                ),
            },
        }
    }

    /// The step that follows `reply` at the time `now_sec`. An exchanged
    /// code leads to the profile, the profile to the user that it
    /// identifies. A user that is found, or made, gets the tokens. A user
    /// that is not found is made where the flow came by a profile; any
    /// other failure of the user service ends the flow as it is, and a
    /// failure of a provider ends it as `Unknown`.
    pub open spec fn advance(
        self,
        flow: AuthFlowView,
        reply: AuthReply,
        now_sec: u64,
    ) -> AuthStepView {
        match (flow, reply) {
            (AuthFlowView::Exchanging(provider), AuthReply::Http(reply)) => match exchanged(
                provider,
                http_view(reply),
            ) {
                Ok(access_token) => AuthStepView::Ask(
                    AuthFlowView::Profiling(provider),
                    AuthRequestView::Profile { provider, access_token },
                ),
                Err(message) => failed(message),
            },
            (AuthFlowView::Profiling(provider), AuthReply::Http(reply)) => match profiled(
                provider,
                http_view(reply),
            ) {
                Ok((identifier, input)) => AuthStepView::Ask(
                    AuthFlowView::Selecting(Some(input)),
                    AuthRequestView::SelectUser(identifier),
                ),
                Err(message) => failed(message),
            },
            (AuthFlowView::Selecting(_), AuthReply::User(Ok(user))) => self.issue(user, now_sec),
            (AuthFlowView::Selecting(Some(input)), AuthReply::User(Err(e))) => if e.kind
                == ErrorKind::NotFound {
                AuthStepView::Ask(AuthFlowView::Creating, AuthRequestView::CreateUser(input))
            } else {
                AuthStepView::Finished(Err(e@))
            },
            (AuthFlowView::Selecting(None), AuthReply::User(Err(e))) => AuthStepView::Finished(
                Err(e@),
            ),
            (AuthFlowView::Creating, AuthReply::User(Ok(user))) => self.issue(user, now_sec),
            (AuthFlowView::Creating, AuthReply::User(Err(e))) => AuthStepView::Finished(Err(e@)),
            _ => failed("Unexpected reply"@),
        }
    }
}

/// A provider's answer as contracts see it.
pub open spec fn http_view(reply: Result<HttpReply, String>) -> Result<HttpReplyView, Seq<char>> {
    match reply {
        Ok(reply) => Ok(reply@),
        Err(message) => Err(message@),
    }
}

/// A result of texts as contracts see it.
pub open spec fn texts(result: Result<String, String>) -> Result<Seq<char>, Seq<char>> {
    match result {
        Ok(t) => Ok(t@),
        Err(t) => Err(t@),
    }
}

fn github_secret(list: &Vec<GithubAuthConfigItem>, client_id: &String) -> (secret: Option<String>)
    ensures
        match secret {
            Some(s) => github_client(list@, client_id@) == Some(s@),
            None => github_client(list@, client_id@) is None,
        },
{
    let mut i: usize = 0;
    assert(list@.skip(0) =~= list@);
    while i < list.len()
        invariant
            i <= list@.len(),
            github_client(list@, client_id@) == github_client(list@.skip(i as int), client_id@),
        decreases list@.len() - i,
    {
        if list[i].client_id == *client_id {
            return Some(list[i].client_secret.clone());
        }
        assert(list@.skip(i as int).drop_first() =~= list@.skip(i + 1));
        i = i + 1;
    }
    None
}

fn google_secret(list: &Vec<GoogleAuthConfigItem>, client_id: &String) -> (client: Option<
    (String, String),
>)
    ensures
        match client {
            Some((secret, uri)) => google_client(list@, client_id@) == Some((secret@, uri@)),
            None => google_client(list@, client_id@) is None,
        },
{
    let mut i: usize = 0;
    assert(list@.skip(0) =~= list@);
    while i < list.len()
        invariant
            i <= list@.len(),
            google_client(list@, client_id@) == google_client(list@.skip(i as int), client_id@),
        decreases list@.len() - i,
    {
        if list[i].client_id == *client_id {
            return Some((list[i].client_secret.clone(), list[i].redirect_uri.clone()));
        }
        assert(list@.skip(i as int).drop_first() =~= list@.skip(i + 1));
        i = i + 1;
    }
    None
}

fn member_text(text: &str, name: &str) -> (member: Option<String>)
    ensures
        match member {
            Some(m) => text_member(text@, name@) == Some(m@),
            None => text_member(text@, name@) is None,
        },
{
    match json_member(text, name) {
        Some(JsonValue::Text(t)) => Some(t),
        _ => None,
    }
}

/// The access token that a provider's answer to an exchange holds, or why
/// it holds none.
pub fn exchanged_token(provider: Provider, reply: Result<HttpReply, String>) -> (res: Result<
    String,
    String,
>)
    ensures
        texts(res) == exchanged(provider, http_view(reply)),
{
    let reply = match reply {
        Ok(reply) => reply,
        Err(message) => {
            return Err(message);
        },
    };
    if reply.status != 200 {
        return Err(reply.status_text);
    }
    let token = member_text(reply.body.as_str(), "access_token");
    match provider {
        Provider::Github => match token {
            Some(token) => Ok(token),
            None => match member_text(reply.body.as_str(), "error_description") {
                Some(description) => Err(description),
                None => Err(reply.body),
            },
        },
        Provider::Google => match token {
            Some(token) => {
                let expires = match json_member(reply.body.as_str(), "expires_in") {
                    Some(JsonValue::Unsigned(_)) => true,
                    _ => false,
                };
                let scope = member_text(reply.body.as_str(), "scope");
                let token_type = member_text(reply.body.as_str(), "token_type");
                let id_token = member_text(reply.body.as_str(), "id_token");
                if expires && scope.is_some() && token_type.is_some() && id_token.is_some() {
                    Ok(token)
                } else {
                    Err("Invalid google token response".to_owned())
                }
            },
            None => Err("Invalid google token response".to_owned()),
        },
    }
}

/// Whom a provider's answer to the question for a profile identifies, and
/// the input that such a user is made of, or why it identifies nobody.
pub fn profiled_user(provider: Provider, reply: Result<HttpReply, String>) -> (res: Result<
    (UserIdentifier, CreateUserInput),
    String,
>)
    ensures
        match res {
            Ok((identifier, input)) => profiled(provider, http_view(reply)) == Ok::<
                (UserIdentifierView, CreateUserInputView),
                Seq<char>,
            >((identifier@, input@)),
            Err(message) => profiled(provider, http_view(reply)) == Err::<
                (UserIdentifierView, CreateUserInputView),
                Seq<char>,
            >(message@),
        },
{
    let reply = match reply {
        Ok(reply) => reply,
        Err(message) => {
            return Err(message);
        },
    };
    if reply.status != 200 {
        return Err(reply.status_text);
    }
    let id = json_member(reply.body.as_str(), "id");
    match provider {
        Provider::Github => match id {
            Some(JsonValue::Unsigned(id)) => Ok(
                (
                    UserIdentifier::GithubUserId(id),
                    CreateUserInput::Github { github_user: reply.body },
                ),
            ),
            Some(JsonValue::Number) => Err("Invalid github user".to_owned()),
            _ => Err("Invalid github user response".to_owned()),
        },
        Provider::Google => match id {
            Some(JsonValue::Text(id)) => Ok(
                (
                    UserIdentifier::GoogleUserId(id),
                    CreateUserInput::Google { google_user: reply.body },
                ),
            ),
            _ => Err("Invalid google user response".to_owned()),
        },
    }
}

impl AuthServiceImpl {
    fn issue(&self, user: User, now_sec: u64) -> (res: AuthStep)
        ensures
            res@ == self@.issue(user, now_sec),
    {
        AuthStep::Finished(
            AccessToken::at(
                user,
                now_sec,
                (
                    self.access_token_config.expires_in_sec,
                    self.access_token_config.secret.as_str().as_bytes(),
                ),
                (
                    self.refresh_token_config.expires_in_sec,
                    self.refresh_token_config.secret.as_str().as_bytes(),
                ),
            ),
        )
    }

    /// Starts the exchange of `input` at the time `now_sec`.
    pub fn create_access_token_at(&self, input: CreateAccessTokenInput, now_sec: u64) -> (res:
        AuthStep)
        ensures
            res@ == self@.begin(input, now_sec),
    {
        match input {
            CreateAccessTokenInput::Github { client_id, code } => {
                match github_secret(&self.github_auth_config.list, &client_id) {
                    Some(client_secret) => AuthStep::Ask(
                        AuthFlow::Exchanging(Provider::Github),
                        AuthRequest::Exchange {
                            provider: Provider::Github,
                            client_id,
                            client_secret,
                            code,
                            redirect_uri: None,
                        },
                    ),
                    None => AuthStep::Finished(
                        Err(Error::unknown(Some("Invalid client_id".to_owned()))),
                    ),
                }
            },
            CreateAccessTokenInput::Google { client_id, code } => {
                match google_secret(&self.google_auth_config.list, &client_id) {
                    Some((client_secret, redirect_uri)) => AuthStep::Ask(
                        AuthFlow::Exchanging(Provider::Google),
                        AuthRequest::Exchange {
                            provider: Provider::Google,
                            client_id,
                            client_secret,
                            code,
                            redirect_uri: Some(redirect_uri),
                        },
                    ),
                    None => AuthStep::Finished(
                        Err(Error::unknown(Some("Invalid client_id".to_owned()))),
                    ),
                }
            },
            CreateAccessTokenInput::GoogleAccessToken { access_token } => AuthStep::Ask(
                AuthFlow::Profiling(Provider::Google),
                AuthRequest::Profile { provider: Provider::Google, access_token },
            ),
            CreateAccessTokenInput::RefreshToken { refresh_token } => {
                match AccessTokenPayload::decode_at(
                    refresh_token.as_str(),
                    self.refresh_token_config.secret.as_str().as_bytes(),
                    now_sec,
                ) {
                    Ok(claims) => AuthStep::Ask(
                        AuthFlow::Selecting(None),
                        AuthRequest::SelectUser(UserIdentifier::Id(claims.sub)),
                    ),
                    Err(e) => AuthStep::Finished(Err(e)),
                }
            },
        }
    }

    /// Starts the exchange of `input` now: what
    /// [`AuthServiceImpl::create_access_token_at`] does at the time that
    /// the clock says.
    pub fn create_access_token(&self, input: CreateAccessTokenInput) -> (res: AuthStep)
        ensures
            exists|now: u64| res@ == #[trigger] self@.begin(input, now),
    {
        self.create_access_token_at(input, now_sec())
    }

    /// Takes the answer to the request that was handed out last, at the
    /// time `now_sec`, and says what follows.
    pub fn advance_at(&self, flow: AuthFlow, reply: AuthReply, now_sec: u64) -> (res: AuthStep)
        ensures
            res@ == self@.advance(flow@, reply, now_sec),
    {
        match (flow, reply) {
            (AuthFlow::Exchanging(provider), AuthReply::Http(reply)) => {
                match exchanged_token(provider, reply) {
                    Ok(access_token) => AuthStep::Ask(
                        AuthFlow::Profiling(provider),
                        AuthRequest::Profile { provider, access_token },
                    ),
                    Err(message) => AuthStep::Finished(Err(Error::unknown(Some(message)))),
                }
            },
            (AuthFlow::Profiling(provider), AuthReply::Http(reply)) => {
                match profiled_user(provider, reply) {
                    Ok((identifier, input)) => AuthStep::Ask(
                        AuthFlow::Selecting(Some(input)),
                        AuthRequest::SelectUser(identifier),
                    ),
                    Err(message) => AuthStep::Finished(Err(Error::unknown(Some(message)))),
                }
            },
            (AuthFlow::Selecting(_), AuthReply::User(Ok(user))) => self.issue(user, now_sec),
            (AuthFlow::Selecting(Some(input)), AuthReply::User(Err(e))) => {
                match e.kind {
                    ErrorKind::NotFound => AuthStep::Ask(
                        AuthFlow::Creating,
                        AuthRequest::CreateUser(input),
                    ),
                    _ => AuthStep::Finished(Err(e)),
                }
            },
            (AuthFlow::Selecting(None), AuthReply::User(Err(e))) => AuthStep::Finished(Err(e)),
            (AuthFlow::Creating, AuthReply::User(Ok(user))) => self.issue(user, now_sec),
            (AuthFlow::Creating, AuthReply::User(Err(e))) => AuthStep::Finished(Err(e)),
            _ => AuthStep::Finished(Err(Error::unknown(Some("Unexpected reply".to_owned())))),
        }
    }

    /// Takes the answer to the request that was handed out last, and says
    /// what follows: what [`AuthServiceImpl::advance_at`] does at the time
    /// that the clock says.
    pub fn advance(&self, flow: AuthFlow, reply: AuthReply) -> (res: AuthStep)
        ensures
            exists|now: u64| res@ == #[trigger] self@.advance(flow@, reply, now),
    {
        self.advance_at(flow, reply, now_sec())
    }
}

} // verus!
