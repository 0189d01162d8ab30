//! Session and refresh tokens: signed claims with an expiry.

use vstd::prelude::*;

use crate::clock::now_sec;
use crate::id::Id;
use crate::json::{
    json_member, json_member_of, json_object, json_object_text, members_of, JsonMember, JsonValue,
};
use crate::json::written;
use crate::jwt::{carries, jwt_claims, jwt_decode, jwt_encode, jwt_encoded, jwt_refusal};
use crate::result::{Error, ErrorKind, ErrorView};
use crate::user::{User, UserId};

verus! {

/// What a caller offers in exchange for tokens.
#[derive(Debug, Clone, PartialEq)]
pub enum CreateAccessTokenInput {
    Github { client_id: String, code: String },
    Google { client_id: String, code: String },
    GoogleAccessToken { access_token: String },
    RefreshToken { refresh_token: String },
}

/// A session token with the refresh token that renews it.
#[derive(Debug, Default, Clone, PartialEq)]
pub struct AccessToken {
    pub access_token: String,
    pub token_type: String,
    /// The seconds that the session token lasts.
    pub expires_in: u64,
    pub refresh_token: String,
}

/// The claims of a session token: when it was issued, when it expires, and
/// the user it stands for.
#[derive(Debug, Default, Clone, PartialEq)]
pub struct AccessTokenPayload {
    pub iat: u64,
    pub exp: u64,
    pub sub: UserId,
}

/// The claims of a refresh token: those of a session token.
pub type RefreshTokenPayload = AccessTokenPayload;

/// The claims of a session token as contracts see them.
pub struct Claims {
    pub iat: u64,
    pub exp: u64,
    pub sub: Seq<char>,
}

impl View for AccessTokenPayload {
    type V = Claims;

    open spec fn view(&self) -> Claims {
        Claims { iat: self.iat, exp: self.exp, sub: self.sub@ }
    }
}

impl Claims {
    /// The claims as members of a JSON object.
    pub open spec fn members(self) -> Seq<(Seq<char>, JsonMember)> {
        seq![
            ("iat"@, JsonMember::Unsigned(self.iat)),
            ("exp"@, JsonMember::Unsigned(self.exp)),
            ("sub"@, JsonMember::Text(self.sub)),
        ]
    }

    /// The claims that the JSON text `text` holds: two numbers and a
    /// string, under their names.
    pub open spec fn read(text: Seq<char>) -> Option<Claims> {
        match (
            json_member_of(text, "iat"@),
            json_member_of(text, "exp"@),
            json_member_of(text, "sub"@),
        ) {
            (
                Some(JsonMember::Unsigned(iat)),
                Some(JsonMember::Unsigned(exp)),
                Some(JsonMember::Text(sub)),
            ) => Some(Claims { iat, exp, sub }),
            _ => None,
        }
    }

    /// The claims of a token issued at `now` for `ttl` seconds, where the
    /// expiry can be written.
    pub open spec fn issued(sub: Seq<char>, now: u64, ttl: u64) -> Option<Claims> {
        if now + ttl <= u64::MAX {
            Some(Claims { iat: now, exp: (now + ttl) as u64, sub })
        } else {
            None
        }
    }

    /// The token of the claims under `secret`.
    pub open spec fn token(self, secret: Seq<u8>) -> Option<Seq<char>> {
        jwt_encoded(json_object_text(self.members()), secret)
    }
}

/// The claims that `token` is accepted with at the time `now`: the token
/// carries the signature that `secret` gives, holds the claims of a session
/// token, and expires after `now`. At its expiry a token is expired.
pub open spec fn accepted(token: Seq<char>, secret: Seq<u8>, now: u64) -> Option<Claims> {
    match jwt_claims(token, secret) {
        Some(text) => match Claims::read(text) {
            Some(claims) => if now < claims.exp {
                Some(claims)
            } else {
                None
            },
            None => None,
        },
        None => None,
    }
}

/// Why `token` is not accepted at the time `now`, where it is not: the
/// crate's words for a token that it refuses, and the library's for claims
/// that are not those of a session token and for a token that is expired.
pub open spec fn refusal(token: Seq<char>, secret: Seq<u8>, now: u64) -> Seq<char> {
    match jwt_claims(token, secret) {
        Some(text) => match Claims::read(text) {
            Some(_) => "ExpiredSignature"@,
            None => "Invalid token claims"@,
        },
        None => jwt_refusal(token, secret),
    }
}

/// Each claim is written under its name.
proof fn lemma_members_written(claims: Claims)
    ensures
        written(claims.members(), "iat"@) == Some(JsonMember::Unsigned(claims.iat)),
        written(claims.members(), "exp"@) == Some(JsonMember::Unsigned(claims.exp)),
        written(claims.members(), "sub"@) == Some(JsonMember::Text(claims.sub)),
{
    reveal_strlit("iat");
    reveal_strlit("exp");
    reveal_strlit("sub");
    assert("iat"@[0] != "exp"@[0] && "iat"@[0] != "sub"@[0] && "exp"@[0] != "sub"@[0]);
    let m = claims.members();
    let two = m.drop_last();
    let one = two.drop_last();
    assert(m.last().0 == "sub"@);
    assert(two.last().0 == "exp"@);
    assert(one.last().0 == "iat"@);
    assert(written(one, "iat"@) == Some(JsonMember::Unsigned(claims.iat)));
    assert(written(two, "iat"@) == written(one, "iat"@));
    assert(written(m, "iat"@) == written(two, "iat"@));
    assert(written(two, "exp"@) == Some(JsonMember::Unsigned(claims.exp)));
    assert(written(m, "exp"@) == written(two, "exp"@));
}

/// An expired token is not accepted. Whatever the signature of a token,
/// it is accepted only before its expiry: a token that holds the claims of
/// a session token under a signature that `secret` gives is accepted at
/// `now` exactly where `now` is before its expiry, and at its expiry it is
/// expired.
pub proof fn lemma_expired_is_refused(token: Seq<char>, secret: Seq<u8>, now: u64)
    ensures
        accepted(token, secret, now) matches Some(claims) ==> now < claims.exp,
        jwt_claims(token, secret) matches Some(text) ==> (Claims::read(text) matches Some(claims)
            ==> (accepted(token, secret, now) is Some <==> now < claims.exp)),
{
}

impl AccessTokenPayload {
    /// The claims of a token issued to `user_id` at `now_sec` for
    /// `expires_in_sec` seconds, or `None` where the expiry is past the
    /// end of 64-bit time.
    pub fn at(user_id: UserId, now_sec: u64, expires_in_sec: u64) -> (res: Option<Self>)
        ensures
            match res {
                Some(p) => Claims::issued(user_id@, now_sec, expires_in_sec) == Some(p@),
                None => Claims::issued(user_id@, now_sec, expires_in_sec) is None,
            },
    {
        match now_sec.checked_add(expires_in_sec) {
            Some(exp) => Some(AccessTokenPayload { iat: now_sec, exp, sub: user_id }),
            None => None,
        }
    }

    /// The claims of a token issued to `user_id` now for `expires_in_sec`
    /// seconds: what [`AccessTokenPayload::at`] gives at the time that the
    /// clock says. So the token expires `expires_in_sec` seconds after it
    /// was issued, and there is none only where that is past the end of
    /// 64-bit time.
    pub fn new(user_id: UserId, expires_in_sec: u64) -> (res: Option<Self>)
        ensures
            exists|now: u64|
                match res {
                    Some(p) => #[trigger] Claims::issued(user_id@, now, expires_in_sec) == Some(
                        p@,
                    ),
                    None => Claims::issued(user_id@, now, expires_in_sec) is None,
                },
            res matches Some(p) ==> p.sub@ == user_id@ && p.exp == p.iat + expires_in_sec,
            expires_in_sec == 0 ==> res is Some,
    {
        Self::at(user_id, now_sec(), expires_in_sec)
    }

    fn claims_text(&self) -> (text: String)
        ensures
            text@ == json_object_text(self@.members()),
            crate::json::json_parses(text@),
            Claims::read(text@) == Some(self@),
    {
        let mut members: Vec<(String, JsonValue)> = Vec::new();
        members.push(("iat".to_owned(), JsonValue::Unsigned(self.iat)));
        members.push(("exp".to_owned(), JsonValue::Unsigned(self.exp)));
        members.push(("sub".to_owned(), JsonValue::Text(self.sub.to_string())));
        assert(members_of(members@) =~= self@.members());
        let text = json_object(&members);
        proof {
            lemma_members_written(self@);
            let m = self@.members();
            assert(json_member_of(text@, "iat"@) == written(m, "iat"@));
            assert(json_member_of(text@, "exp"@) == written(m, "exp"@));
            assert(json_member_of(text@, "sub"@) == written(m, "sub"@));
        }
        text
    }

    /// The token of the claims, signed with `secret`. There is one, and
    /// until it expires it is accepted under `secret` with these claims.
    pub fn encode(&self, secret: &[u8]) -> (token: Option<String>)
        ensures
            match token {
                Some(t) => self@.token(secret@) == Some(t@),
                None => self@.token(secret@) is None,
            },
            token matches Some(t) && forall|now: u64|
                now < self.exp ==> #[trigger] accepted(t@, secret@, now) == Some(self@),
    {
        let text = self.claims_text();
        let token = jwt_encode(text.as_str(), secret);
        proof {
            assert(json_member_of(text@, "iat"@) is Some);
            let t = token->0;
            assert(carries(t@, secret@, text@));
            let read = jwt_claims(t@, secret@)->0;
            assert(json_member_of(read, "iat"@) == json_member_of(text@, "iat"@));
            assert(json_member_of(read, "exp"@) == json_member_of(text@, "exp"@));
            assert(json_member_of(read, "sub"@) == json_member_of(text@, "sub"@));
            assert(Claims::read(read) == Some(self@));
        }
        token
    }

    /// Checks `token` at the time `now_sec`: its signature under `secret`,
    /// its claims, and that it expires after `now_sec`. Any failure is
    /// `Unauthorized`.
    pub fn decode_at(token: &str, secret: &[u8], now_sec: u64) -> (res: Result<Self, Error>)
        ensures
            match res {
                Ok(p) => accepted(token@, secret@, now_sec) == Some(p@),
                Err(e) => accepted(token@, secret@, now_sec) is None && e@ == (ErrorView {
                    kind: ErrorKind::Unauthorized,
                    message: Some(refusal(token@, secret@, now_sec)),
                }),
            },
            res matches Ok(p) ==> now_sec < p.exp,
    {
        let text = match jwt_decode(token, secret) {
            Ok(text) => text,
            Err(message) => {
                return Err(Error::unauthorized(Some(message)));
            },
        };
        assert(jwt_claims(token@, secret@) == Some(text@));
        let iat = json_member(text.as_str(), "iat");
        let exp = json_member(text.as_str(), "exp");
        let sub = json_member(text.as_str(), "sub");
        match (iat, exp, sub) {
            (
                Some(JsonValue::Unsigned(iat)),
                Some(JsonValue::Unsigned(exp)),
                Some(JsonValue::Text(sub)),
            ) => {
                if now_sec < exp {
                    Ok(AccessTokenPayload { iat, exp, sub: Id::new(sub) })
                } else {
                    Err(Error::unauthorized(Some("ExpiredSignature".to_owned())))
                }
            },
            _ => Err(Error::unauthorized(Some("Invalid token claims".to_owned()))),
        }
    }

    /// Checks `token` now: what [`AccessTokenPayload::decode_at`] does at
    /// the time that the clock says. So a token that is accepted carries
    /// the signature that `secret` gives and holds the claims returned, and
    /// any failure is `Unauthorized`.
    pub fn decode(token: &str, secret: &[u8]) -> (res: Result<Self, Error>)
        ensures
            exists|now: u64|
                match res {
                    Ok(p) => #[trigger] accepted(token@, secret@, now) == Some(p@),
                    Err(e) => accepted(token@, secret@, now) is None && e@ == (ErrorView {
                        kind: ErrorKind::Unauthorized,
                        message: Some(refusal(token@, secret@, now)),
                    }),
                },
            match res {
                Ok(p) => jwt_claims(token@, secret@) matches Some(text) && Claims::read(text)
                    == Some(p@),
                Err(e) => e.kind == ErrorKind::Unauthorized,
            },
    {
        Self::decode_at(token, secret, now_sec())
    }
}

/// The tokens as contracts see them.
pub struct AccessTokenView {
    pub access_token: Seq<char>,
    pub token_type: Seq<char>,
    pub expires_in: u64,
    pub refresh_token: Seq<char>,
}

impl View for AccessToken {
    type V = AccessTokenView;

    open spec fn view(&self) -> AccessTokenView {
        AccessTokenView {
            access_token: self.access_token@,
            token_type: self.token_type@,
            expires_in: self.expires_in,
            refresh_token: self.refresh_token@,
        }
    }
}

impl AccessToken {
    /// The tokens issued to `sub` at `now_sec`: a session token and a
    /// refresh token, each with its lifetime in seconds and its secret. The
    /// session token is a bearer token that lasts its lifetime. There are
    /// none, and the failure is `Unknown`, where an expiry is past the end
    /// of 64-bit time or the signing fails.
    pub open spec fn issued(
        sub: Seq<char>,
        now_sec: u64,
        access: (u64, Seq<u8>),
        refresh: (u64, Seq<u8>),
    ) -> Result<AccessTokenView, ErrorView> {
        match (
            Claims::issued(sub, now_sec, access.0),
            Claims::issued(sub, now_sec, refresh.0),
        ) {
            (Some(a), Some(r)) => match (a.token(access.1), r.token(refresh.1)) {
                (Some(access_token), Some(refresh_token)) => Ok(
                    AccessTokenView {
                        access_token,
                        token_type: "Bearer"@,
                        expires_in: access.0,
                        refresh_token,
                    },
                ),
                _ => Err(
                    ErrorView {
                        kind: ErrorKind::Unknown,
                        message: Some("Encode jsonwebtoken error"@),
                    },
                ),
            },
            _ => Err(
                ErrorView {
                    kind: ErrorKind::Unknown,
                    message: Some("Token expiry is out of range"@),
                },
            ),
        }
    }

    /// Issues the tokens of `user` at the time `now_sec`. There are
    /// tokens unless an expiry is past the end of 64-bit time, and until it
    /// expires each is accepted under its secret with the claims it was
    /// issued with.
    pub fn at(
        user: User,
        now_sec: u64,
        access_token_config: (u64, &[u8]),
        refresh_token_config: (u64, &[u8]),
    ) -> (res: Result<Self, Error>)
        ensures
            match res {
                Ok(t) => Self::issued(
                    user.id@,
                    now_sec,
                    (access_token_config.0, access_token_config.1@),
                    (refresh_token_config.0, refresh_token_config.1@),
                ) == Ok::<AccessTokenView, ErrorView>(t@),
                Err(e) => Self::issued(
                    user.id@,
                    now_sec,
                    (access_token_config.0, access_token_config.1@),
                    (refresh_token_config.0, refresh_token_config.1@),
                ) == Err::<AccessTokenView, ErrorView>(e@),
            },
            now_sec + access_token_config.0 <= u64::MAX && now_sec + refresh_token_config.0
                <= u64::MAX ==> res is Ok,
            res matches Ok(t) ==> forall|at: u64|
                #![trigger accepted(t.access_token@, access_token_config.1@, at)]
                #![trigger accepted(t.refresh_token@, refresh_token_config.1@, at)]
                {
                    &&& at < now_sec + access_token_config.0 ==> accepted(
                        t.access_token@,
                        access_token_config.1@,
                        at,
                    ) == Claims::issued(user.id@, now_sec, access_token_config.0)
                    &&& at < now_sec + refresh_token_config.0 ==> accepted(
                        t.refresh_token@,
                        refresh_token_config.1@,
                        at,
                    ) == Claims::issued(user.id@, now_sec, refresh_token_config.0)
                },
    {
        let access = AccessTokenPayload::at(user.id.clone(), now_sec, access_token_config.0);
        let refresh = AccessTokenPayload::at(user.id, now_sec, refresh_token_config.0);
        let (access, refresh) = match (access, refresh) {
            (Some(a), Some(r)) => (a, r),
            _ => {
                return Err(Error::unknown(Some("Token expiry is out of range".to_owned())));
            },
        };
        let access_token = access.encode(access_token_config.1);
        let refresh_token = refresh.encode(refresh_token_config.1);
        match (access_token, refresh_token) {
            (Some(access_token), Some(refresh_token)) => Ok(
                AccessToken {
                    access_token,
                    token_type: "Bearer".to_owned(),
                    expires_in: access_token_config.0,
                    refresh_token,
                },
            ),
            _ => Err(Error::unknown(Some("Encode jsonwebtoken error".to_owned()))),
        }
    }

    /// Issues the tokens of `user` now: what [`AccessToken::at`] does at
    /// the time that the clock says. So the session token lasts its
    /// configured lifetime, and a failure is `Unknown`.
    pub fn new(
        user: User,
        access_token_config: (u64, &[u8]),
        refresh_token_config: (u64, &[u8]),
    ) -> (res: Result<Self, Error>)
        ensures
            exists|now: u64|
                match res {
                    Ok(t) => #[trigger] Self::issued(
                        user.id@,
                        now,
                        (access_token_config.0, access_token_config.1@),
                        (refresh_token_config.0, refresh_token_config.1@),
                    ) == Ok::<AccessTokenView, ErrorView>(t@),
                    Err(e) => Self::issued(
                        user.id@,
                        now,
                        (access_token_config.0, access_token_config.1@),
                        (refresh_token_config.0, refresh_token_config.1@),
                    ) == Err::<AccessTokenView, ErrorView>(e@),
                },
            match res {
                Ok(t) => t.token_type@ == "Bearer"@ && t.expires_in == access_token_config.0,
                Err(e) => e.kind == ErrorKind::Unknown,
            },
    {
        Self::at(user, now_sec(), access_token_config, refresh_token_config)
    }
}

} // verus!
