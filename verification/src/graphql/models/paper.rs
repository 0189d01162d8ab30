use vstd::prelude::*;

use crate::clock::now_sec;
use crate::cursor::{decode_key, encodable, encode_key, encoded, try_encode_key, Cursor};
use crate::graphql::models::user::answer_of;
use crate::graphql::order::OrderDirection;
use crate::graphql::page_info::PageInfo;
use crate::graphql::result::Error;
use crate::guard::{permits, Capability};
use crate::id::Id;
use crate::json::{
    json_member_of, json_object, json_object_text, members_of, written, JsonMember, JsonValue,
};
use crate::jwt::{carries, jwt_claims, jwt_encode, jwt_encoded};
use crate::keyset::{begin_spec, window_of, PageStep};
use crate::pagination::{OrderBy, Pagination, PaginationList};
use crate::paper::PaperId;
use crate::paper_service::{
    denied, field_name, PaperFilter, PaperFilterView, PaperServiceImpl,
};
use crate::result::ErrorView;
use crate::text::{decimal, decimal_text};
use crate::user::UserId;

verus! {

/// The order of a listing of papers, as clients give it.
#[derive(Debug, Clone, Copy, PartialEq)]
pub struct PaperOrder {
    pub field: PaperOrderField,
    pub direction: OrderDirection,
}

/// The fields that papers can be sorted by, as clients name them.
#[derive(Debug, Clone, Copy, PartialEq, Eq, Structural)]
pub enum PaperOrderField {
    Id,
    UpdatedAt,
}

impl PaperOrderField {
    /// The field as the core knows it.
    pub open spec fn to_core(self) -> crate::paper::PaperOrderField {
        match self {
            PaperOrderField::Id => crate::paper::PaperOrderField::Id,
            PaperOrderField::UpdatedAt => crate::paper::PaperOrderField::UpdatedAt,
        }
    }
}

impl PaperOrder {
    /// The order as the core knows it.
    pub fn into(self) -> (res: OrderBy<crate::paper::PaperOrderField>)
        ensures
            res.field == self.field.to_core(),
            res.direction == self.direction.to_core(),
    {
        OrderBy {
            field: match self.field {
                PaperOrderField::Id => crate::paper::PaperOrderField::Id,
                PaperOrderField::UpdatedAt => crate::paper::PaperOrderField::UpdatedAt,
            },
            direction: self.direction.into(),
        }
    }
}

/// A token that gives access to one paper for a time.
#[derive(Debug, Clone, PartialEq)]
pub struct PaperToken {
    pub access_token: String,
    pub token_type: String,
    /// The seconds that the token lasts, in decimal.
    pub expires_in: String,
}

/// A token for one paper as contracts see it.
pub struct PaperTokenView {
    pub access_token: Seq<char>,
    pub token_type: Seq<char>,
    pub expires_in: Seq<char>,
}

impl View for PaperToken {
    type V = PaperTokenView;

    open spec fn view(&self) -> PaperTokenView {
        PaperTokenView {
            access_token: self.access_token@,
            token_type: self.token_type@,
            expires_in: self.expires_in@,
        }
    }
}

/// The claims of a token for one paper: those of a session token, the
/// paper, and whether the token is restricted to reading.
#[derive(Debug, PartialEq)]
pub struct PaperTokenPayload {
    pub iat: u64,
    pub exp: u64,
    pub sub: UserId,
    pub paper_id: PaperId,
    /// `Some(true)` restricts the token to reading; unset, it is not
    /// explicitly restricted.
    pub read_only: Option<bool>,
}

/// The claims of a token for one paper as contracts see them.
pub struct PaperClaims {
    pub iat: u64,
    pub exp: u64,
    pub sub: Seq<char>,
    pub paper_id: Seq<char>,
    pub read_only: Option<bool>,
}

impl View for PaperTokenPayload {
    type V = PaperClaims;

    open spec fn view(&self) -> PaperClaims {
        PaperClaims {
            iat: self.iat,
            exp: self.exp,
            sub: self.sub@,
            paper_id: self.paper_id@,
            read_only: self.read_only,
        }
    }
}

impl PaperClaims {
    /// The claims as members of a JSON object. An unset restriction is
    /// written as null.
    pub open spec fn members(self) -> Seq<(Seq<char>, JsonMember)> {
        seq![
            ("iat"@, JsonMember::Unsigned(self.iat)),
            ("exp"@, JsonMember::Unsigned(self.exp)),
            ("sub"@, JsonMember::Text(self.sub)),
            ("paper_id"@, JsonMember::Text(self.paper_id)),
            (
                "read_only"@,
                match self.read_only {
                    Some(flag) => JsonMember::Bool(flag),
                    None => JsonMember::Null,
                },
            ),
        ]
    }

    /// The claims that the JSON text `text` holds: two numbers, two
    /// strings, and a restriction that is a boolean or null, under their
    /// names.
    pub open spec fn read(text: Seq<char>) -> Option<PaperClaims> {
        match (
            json_member_of(text, "iat"@),
            json_member_of(text, "exp"@),
            json_member_of(text, "sub"@),
            json_member_of(text, "paper_id"@),
            json_member_of(text, "read_only"@),
        ) {
            (
                Some(JsonMember::Unsigned(iat)),
                Some(JsonMember::Unsigned(exp)),
                Some(JsonMember::Text(sub)),
                Some(JsonMember::Text(paper_id)),
                Some(JsonMember::Bool(flag)),
            ) => Some(PaperClaims { iat, exp, sub, paper_id, read_only: Some(flag) }),
            (
                Some(JsonMember::Unsigned(iat)),
                Some(JsonMember::Unsigned(exp)),
                Some(JsonMember::Text(sub)),
                Some(JsonMember::Text(paper_id)),
                Some(JsonMember::Null),
            ) => Some(PaperClaims { iat, exp, sub, paper_id, read_only: None }),
            _ => None,
        }
    }

    /// Whether `token` is signed with `secret` and holds these claims.
    pub open spec fn signed_into(self, token: Seq<char>, secret: Seq<u8>) -> bool {
        jwt_claims(token, secret) matches Some(text) && PaperClaims::read(text) == Some(self)
    }

    /// The claims of a token issued at `now` for `ttl` seconds, where the
    /// expiry can be written.
    pub open spec fn issued(
        sub: Seq<char>,
        now: u64,
        ttl: u64,
        paper_id: Seq<char>,
        read_only: Option<bool>,
    ) -> Option<PaperClaims> {
        if now + ttl <= u64::MAX {
            Some(PaperClaims { iat: now, exp: (now + ttl) as u64, sub, paper_id, read_only })
        } else {
            None
        }
    }

    /// The token of the claims under `secret`.
    pub open spec fn token(self, secret: Seq<u8>) -> Option<Seq<char>> {
        jwt_encoded(json_object_text(self.members()), secret)
    }
}

/// How long a token for a paper lasts, and the secret that signs it.
#[derive(Debug, Clone, PartialEq)]
pub struct PaperTokenConfig {
    pub expires_in_sec: u64,
    pub secret: String,
}

impl PaperTokenPayload {
    /// The claims of a token issued to `user_id` for `paper_id` at
    /// `now_sec` for `expires_in_sec` seconds, or `None` where the expiry
    /// is past the end of 64-bit time.
    pub fn at(
        user_id: UserId,
        now_sec: u64,
        expires_in_sec: u64,
        paper_id: PaperId,
        read_only: Option<bool>,
    ) -> (res: Option<Self>)
        ensures
            match res {
                Some(p) => PaperClaims::issued(
                    user_id@,
                    now_sec,
                    expires_in_sec,
                    paper_id@,
                    read_only,
                ) == Some(p@),
                None => PaperClaims::issued(
                    user_id@,
                    now_sec,
                    expires_in_sec,
                    paper_id@,
                    read_only,
                ) is None,
            },
    {
        match now_sec.checked_add(expires_in_sec) {
            Some(exp) => Some(
                PaperTokenPayload { iat: now_sec, exp, sub: user_id, paper_id, read_only },
            ),
            None => None,
        }
    }

    /// The claims of a token issued now: what [`PaperTokenPayload::at`]
    /// gives at the time that the clock says. So the token is issued to
    /// `user_id` for `paper_id` with the restriction given, and expires
    /// `expires_in_sec` seconds after it was issued; there is none only
    /// where that is past the end of 64-bit time.
    pub fn new(
        user_id: UserId,
        expires_in_sec: u64,
        paper_id: PaperId,
        read_only: Option<bool>,
    ) -> (res: Option<Self>)
        ensures
            exists|now: u64|
                match res {
                    Some(p) => #[trigger] PaperClaims::issued(
                        user_id@,
                        now,
                        expires_in_sec,
                        paper_id@,
                        read_only,
                    ) == Some(p@),
                    None => PaperClaims::issued(
                        user_id@,
                        now,
                        expires_in_sec,
                        paper_id@,
                        read_only,
                    ) is None,
                },
            res matches Some(p) ==> {
                &&& p.sub@ == user_id@
                &&& p.paper_id@ == paper_id@
                &&& p.read_only == read_only
                &&& p.exp == p.iat + expires_in_sec
            },
            expires_in_sec == 0 ==> res is Some,
    {
        Self::at(user_id, now_sec(), expires_in_sec, paper_id, read_only)
    }

    /// The token of the claims, signed with `secret`. There is one, and it
    /// is accepted under `secret` with these claims.
    pub fn encode(&self, secret: &[u8]) -> (token: Option<String>)
        ensures
            match token {
                Some(t) => self@.token(secret@) == Some(t@),
                None => self@.token(secret@) is None,
            },
            token matches Some(t) && self@.signed_into(t@, secret@),
    {
        let mut members: Vec<(String, JsonValue)> = Vec::new();
        members.push(("iat".to_owned(), JsonValue::Unsigned(self.iat)));
        members.push(("exp".to_owned(), JsonValue::Unsigned(self.exp)));
        members.push(("sub".to_owned(), JsonValue::Text(self.sub.to_string())));
        members.push(("paper_id".to_owned(), JsonValue::Text(self.paper_id.to_string())));
        members.push(
            (
                "read_only".to_owned(),
                match self.read_only {
                    Some(flag) => JsonValue::Bool(flag),
                    None => JsonValue::Null,
                },
            ),
        );
        assert(members_of(members@) =~= self@.members());
        let text = json_object(&members);
        let token = jwt_encode(text.as_str(), secret);
        proof {
            lemma_members_written(self@);
            let m = self@.members();
            assert(json_member_of(text@, "iat"@) == written(m, "iat"@));
            assert(json_member_of(text@, "exp"@) == written(m, "exp"@));
            assert(json_member_of(text@, "sub"@) == written(m, "sub"@));
            assert(json_member_of(text@, "paper_id"@) == written(m, "paper_id"@));
            assert(json_member_of(text@, "read_only"@) == written(m, "read_only"@));
            let t = token->0;
            assert(carries(t@, secret@, text@));
            let read = jwt_claims(t@, secret@)->0;
            assert(json_member_of(read, "iat"@) == json_member_of(text@, "iat"@));
            assert(json_member_of(read, "exp"@) == json_member_of(text@, "exp"@));
            assert(json_member_of(read, "sub"@) == json_member_of(text@, "sub"@));
            assert(json_member_of(read, "paper_id"@) == json_member_of(text@, "paper_id"@));
            assert(json_member_of(read, "read_only"@) == json_member_of(text@, "read_only"@));
        }
        token
    }
}

/// Each claim is written under its name.
proof fn lemma_members_written(claims: PaperClaims)
    ensures
        written(claims.members(), "iat"@) == Some(JsonMember::Unsigned(claims.iat)),
        written(claims.members(), "exp"@) == Some(JsonMember::Unsigned(claims.exp)),
        written(claims.members(), "sub"@) == Some(JsonMember::Text(claims.sub)),
        written(claims.members(), "paper_id"@) == Some(JsonMember::Text(claims.paper_id)),
        written(claims.members(), "read_only"@) == Some(
            match claims.read_only {
                Some(flag) => JsonMember::Bool(flag),
                None => JsonMember::Null,
            },
        ),
{
    reveal_strlit("iat");
    reveal_strlit("exp");
    reveal_strlit("sub");
    reveal_strlit("paper_id");
    reveal_strlit("read_only");
    let (i, e, s, p, r) = ("iat"@[0], "exp"@[0], "sub"@[0], "paper_id"@[0], "read_only"@[0]);
    assert(i != e && i != s && i != p && i != r && e != s && e != p && e != r && s != p && s != r
        && p != r);
    let m = claims.members();
    let four = m.drop_last();
    let three = four.drop_last();
    let two = three.drop_last();
    let one = two.drop_last();
    assert(m.last().0 == "read_only"@);
    assert(four.last().0 == "paper_id"@);
    assert(three.last().0 == "sub"@);
    assert(two.last().0 == "exp"@);
    assert(one.last().0 == "iat"@);
    assert(written(one, "iat"@) == Some(JsonMember::Unsigned(claims.iat)));
    assert(written(two, "iat"@) == written(one, "iat"@));
    assert(written(three, "iat"@) == written(two, "iat"@));
    assert(written(four, "iat"@) == written(three, "iat"@));
    assert(written(m, "iat"@) == written(four, "iat"@));
    assert(written(two, "exp"@) == Some(JsonMember::Unsigned(claims.exp)));
    assert(written(three, "exp"@) == written(two, "exp"@));
    assert(written(four, "exp"@) == written(three, "exp"@));
    assert(written(m, "exp"@) == written(four, "exp"@));
    assert(written(three, "sub"@) == Some(JsonMember::Text(claims.sub)));
    assert(written(four, "sub"@) == written(three, "sub"@));
    assert(written(m, "sub"@) == written(four, "sub"@));
    assert(written(four, "paper_id"@) == Some(JsonMember::Text(claims.paper_id)));
    assert(written(m, "paper_id"@) == written(four, "paper_id"@));
}

/// Whether a viewer can write and read a paper, of the outcomes of the
/// check for writing and of the check for reading. Who can write can read.
/// A denial is the answer no; any other failure of the check for writing,
/// or of the check for reading where the viewer cannot write, stays a
/// failure.
pub open spec fn capabilities<W, R>(
    write: crate::result::Result<W>,
    read: crate::result::Result<R>,
) -> Result<(bool, bool), ErrorView> {
    match write {
        Ok(_) => Ok((true, true)),
        Err(w) => if w.kind != crate::result::ErrorKind::Forbidden {
            Err(w@)
        } else {
            match read {
                Ok(_) => Ok((false, true)),
                Err(r) => if r.kind == crate::result::ErrorKind::Forbidden {
                    Ok((false, false))
                } else {
                    Err(r@)
                },
            }
        },
    }
}

/// The restriction of the token that a viewer is granted: none for a
/// viewer who can write, reading only for one who cannot write but can
/// read, and no token for anyone else.
pub open spec fn granted(can_write: bool, can_read: bool) -> Option<bool> {
    if can_write {
        Some(false)
    } else if can_read {
        Some(true)
    } else {
        None
    }
}

/// The claims of the token that `viewer` is granted for `paper_id` at
/// `now`, or why there is none: a viewer who can neither write nor read
/// is `Forbidden`.
pub open spec fn granted_claims(
    viewer: Seq<char>,
    paper_id: Seq<char>,
    can_write: bool,
    can_read: bool,
    now: u64,
    ttl: u64,
) -> Result<PaperClaims, ErrorView> {
    match granted(can_write, can_read) {
        Some(read_only) => match PaperClaims::issued(viewer, now, ttl, paper_id, Some(read_only)) {
            Some(claims) => Ok(claims),
            None => Err(
                ErrorView {
                    kind: crate::result::ErrorKind::Unknown,
                    message: Some("Token expiry is out of range"@),
                },
            ),
        },
        None => Err(
            ErrorView {
                kind: crate::result::ErrorKind::Forbidden,
                message: Some(Capability::Read.denial()),
            },
        ),
    }
}

/// The token that `viewer` is granted for `paper_id` at `now`, signed with
/// `secret`, or why there is none.
pub open spec fn granted_token(
    viewer: Seq<char>,
    paper_id: Seq<char>,
    can_write: bool,
    can_read: bool,
    now: u64,
    ttl: u64,
    secret: Seq<u8>,
) -> Result<PaperTokenView, ErrorView> {
    match granted_claims(viewer, paper_id, can_write, can_read, now, ttl) {
        Ok(claims) => match claims.token(secret) {
            Some(access_token) => Ok(
                PaperTokenView {
                    access_token,
                    token_type: "Bearer"@,
                    expires_in: decimal(ttl as nat),
                },
            ),
            None => Err(
                ErrorView {
                    kind: crate::result::ErrorKind::Unknown,
                    message: Some("Encode jsonwebtoken error"@),
                },
            ),
        },
        Err(e) => Err(e),
    }
}

/// Whether `res` is what the issuance of a token comes to: the token that
/// is granted, or why there is none; and whoever is granted claims gets a
/// token, signed with `secret`, that holds them.
pub open spec fn is_token_of(
    res: Result<PaperToken, Error>,
    viewer: Seq<char>,
    paper_id: Seq<char>,
    can_write: bool,
    can_read: bool,
    now: u64,
    ttl: u64,
    secret: Seq<u8>,
) -> bool {
    &&& match res {
        Ok(token) => granted_token(viewer, paper_id, can_write, can_read, now, ttl, secret)
            == Ok::<PaperTokenView, ErrorView>(token@),
        Err(e) => granted_token(viewer, paper_id, can_write, can_read, now, ttl, secret)
            == Err::<PaperTokenView, ErrorView>(e@),
    }
    &&& granted_claims(viewer, paper_id, can_write, can_read, now, ttl) matches Ok(claims) ==> (
    res matches Ok(token) && claims.signed_into(token.access_token@, secret))
}

/// No token without a capability, and no unrestricted token without the
/// capability to write. Whoever is granted a token for a paper can write
/// or read it; and a token granted to a viewer who cannot write is
/// restricted to reading.
pub proof fn lemma_grant_is_restricted(
    viewer: Seq<char>,
    paper_id: Seq<char>,
    can_write: bool,
    can_read: bool,
    now: u64,
    ttl: u64,
)
    ensures
        granted_claims(viewer, paper_id, can_write, can_read, now, ttl) matches Ok(claims) ==> {
            &&& can_write || can_read
            &&& claims.read_only == Some(!can_write)
            &&& claims.sub == viewer
            &&& claims.paper_id == paper_id
        },
        !can_write && !can_read ==> (granted_claims(
            viewer,
            paper_id,
            can_write,
            can_read,
            now,
            ttl,
        ) matches Err(e) && e.kind == crate::result::ErrorKind::Forbidden),
{
}

/// A paper as clients see it.
#[derive(Debug, Clone, PartialEq)]
pub struct Paper(pub crate::paper::Paper);

impl Paper {
    /// Wraps the value of the core.
    pub fn from(v: crate::paper::Paper) -> (res: Self)
        ensures
            res.0 == v,
    {
        Paper(v)
    }

    /// The id, as text.
    pub fn id(&self) -> (res: String)
        ensures
            res@ == self.0.id@,
    {
        self.0.id.to_string()
    }

    /// When the paper was made, in decimal.
    pub fn created_at(&self) -> (res: String)
        ensures
            res@ == decimal(self.0.created_at as nat),
    {
        decimal_text(self.0.created_at)
    }

    /// When the paper was last updated, in decimal.
    pub fn updated_at(&self) -> (res: String)
        ensures
            res@ == decimal(self.0.updated_at as nat),
    {
        decimal_text(self.0.updated_at)
    }

    /// The title, if the paper has one.
    pub fn title(&self) -> (res: Option<&String>)
        ensures
            res == match self.0.title {
                Some(t) => Some(&t),
                None => None,
            },
    {
        self.0.title.as_ref()
    }

    /// Whether the viewer may write the paper, of the outcome of the
    /// check: a denial is the answer no, any other failure stays a failure.
    pub fn can_viewer_write_paper<T>(checked: crate::result::Result<T>) -> (res: Result<bool, Error>)
        ensures
            match checked {
                Ok(_) => res == Ok::<bool, Error>(true),
                Err(e) => if e.kind == crate::result::ErrorKind::Forbidden {
                    res == Ok::<bool, Error>(false)
                } else {
                    res matches Err(out) && out@ == e@
                },
            },
    {
        Self::_can_viewer_write_paper(checked)
    }

    /// Whether the viewer may write the paper, as
    /// [`Paper::can_viewer_write_paper`].
    pub fn _can_viewer_write_paper<T>(checked: crate::result::Result<T>) -> (res: Result<
        bool,
        Error,
    >)
        ensures
            match checked {
                Ok(_) => res == Ok::<bool, Error>(true),
                Err(e) => if e.kind == crate::result::ErrorKind::Forbidden {
                    res == Ok::<bool, Error>(false)
                } else {
                    res matches Err(out) && out@ == e@
                },
            },
    {
        answer_of(checked)
    }

    /// What the viewer can do with a paper, of the outcomes of the two
    /// checks: whether the viewer can write it, and whether the viewer can
    /// read it, as [`capabilities`] says.
    pub fn grants<W, R>(
        write: crate::result::Result<W>,
        read: crate::result::Result<R>,
    ) -> (res: Result<(bool, bool), Error>)
        ensures
            match capabilities(write, read) {
                Ok(can) => res == Ok::<(bool, bool), Error>(can),
                Err(e) => res matches Err(out) && out@ == e,
            },
    {
        let can_write = match answer_of(write) {
            Ok(answer) => answer,
            Err(e) => {
                return Err(e);
            },
        };
        if can_write {
            return Ok((true, true));
        }
        match answer_of(read) {
            Ok(can_read) => Ok((false, can_read)),
            Err(e) => Err(e),
        }
    }

    /// Issues the token for this paper to `viewer_id` at `now_sec`. A
    /// viewer who can write gets a token that is not restricted; one who
    /// cannot write but can read gets a token restricted to reading;
    /// anyone else is `Forbidden`. Whoever is granted a token gets one,
    /// unless its expiry is past the end of 64-bit time, and the token is
    /// signed with the configured secret and holds the claims granted.
    pub fn token_at(
        &self,
        viewer_id: UserId,
        can_write: bool,
        can_read: bool,
        config: &PaperTokenConfig,
        now_sec: u64,
    ) -> (res: Result<PaperToken, Error>)
        ensures
            match res {
                Ok(token) => granted_token(
                    viewer_id@,
                    self.0.id@,
                    can_write,
                    can_read,
                    now_sec,
                    config.expires_in_sec,
                    vstd::utf8::encode_utf8(config.secret@),
                ) == Ok::<PaperTokenView, ErrorView>(token@),
                Err(e) => granted_token(
                    viewer_id@,
                    self.0.id@,
                    can_write,
                    can_read,
                    now_sec,
                    config.expires_in_sec,
                    vstd::utf8::encode_utf8(config.secret@),
                ) == Err::<PaperTokenView, ErrorView>(e@),
            },
            granted_claims(
                viewer_id@,
                self.0.id@,
                can_write,
                can_read,
                now_sec,
                config.expires_in_sec,
            ) matches Ok(claims) ==> (res matches Ok(token) && claims.signed_into(
                token.access_token@,
                vstd::utf8::encode_utf8(config.secret@),
            )),
    {
        let read_only = if can_write {
            false
        } else if can_read {
            true
        } else {
            return Err(Error::forbidden(Some(denial_to_read())));
        };
        let payload = match PaperTokenPayload::at(
            viewer_id,
            now_sec,
            config.expires_in_sec,
            self.0.id.clone(),
            Some(read_only),
        ) {
            Some(payload) => payload,
            None => {
                return Err(Error::unknown(Some("Token expiry is out of range".to_owned())));
            },
        };
        match payload.encode(config.secret.as_str().as_bytes()) {
            Some(access_token) => Ok(
                PaperToken {
                    access_token,
                    token_type: "Bearer".to_owned(),
                    expires_in: decimal_text(config.expires_in_sec),
                },
            ),
            None => Err(Error::unknown(Some("Encode jsonwebtoken error".to_owned()))),
        }
    }

    /// Issues the token for this paper to `viewer_id` now: what
    /// [`Paper::token_at`] does at the time that the clock says. So a
    /// viewer who can neither write nor read is `Forbidden`, and a token
    /// that is issued is signed with the configured secret, names the
    /// viewer and the paper, lasts its lifetime, and is restricted to
    /// reading exactly where the viewer cannot write.
    pub fn token(
        &self,
        viewer_id: UserId,
        can_write: bool,
        can_read: bool,
        config: &PaperTokenConfig,
    ) -> (res: Result<PaperToken, Error>)
        ensures
            exists|now: u64|
                match res {
                    Ok(token) => #[trigger] granted_token(
                        viewer_id@,
                        self.0.id@,
                        can_write,
                        can_read,
                        now,
                        config.expires_in_sec,
                        vstd::utf8::encode_utf8(config.secret@),
                    ) == Ok::<PaperTokenView, ErrorView>(token@),
                    Err(e) => granted_token(
                        viewer_id@,
                        self.0.id@,
                        can_write,
                        can_read,
                        now,
                        config.expires_in_sec,
                        vstd::utf8::encode_utf8(config.secret@),
                    ) == Err::<PaperTokenView, ErrorView>(e@),
                },
            !can_write && !can_read ==> (res matches Err(e) && e@ == denied(Capability::Read)),
            (can_write || can_read) && config.expires_in_sec == 0 ==> res is Ok,
            res matches Ok(token) ==> {
                &&& can_write || can_read
                &&& token.token_type@ == "Bearer"@
                &&& jwt_claims(
                    token.access_token@,
                    vstd::utf8::encode_utf8(config.secret@),
                ) matches Some(text)
                &&& PaperClaims::read(text) matches Some(claims)
                &&& claims.sub == viewer_id@
                &&& claims.paper_id == self.0.id@
                &&& claims.read_only == Some(!can_write)
                &&& claims.exp == claims.iat + config.expires_in_sec
            },
    {
        self.token_at(viewer_id, can_write, can_read, config, now_sec())
    }

    /// Issues the token for this paper to `viewer_id` at `now_sec`, of the
    /// outcomes of the check for writing and of the check for reading. A
    /// failure of a check that is no denial stays the failure it is, as
    /// [`capabilities`] says; otherwise the token is issued as
    /// [`Paper::token_at`] issues it to a viewer with these capabilities.
    /// So the owner, whose check for writing passes, gets a token that is
    /// not restricted.
    pub fn token_for_at<W, R>(
        &self,
        viewer_id: UserId,
        write: crate::result::Result<W>,
        read: crate::result::Result<R>,
        config: &PaperTokenConfig,
        now_sec: u64,
    ) -> (res: Result<PaperToken, Error>)
        ensures
            match capabilities(write, read) {
                Ok((can_write, can_read)) => is_token_of(
                    res,
                    viewer_id@,
                    self.0.id@,
                    can_write,
                    can_read,
                    now_sec,
                    config.expires_in_sec,
                    vstd::utf8::encode_utf8(config.secret@),
                ),
                Err(e) => res matches Err(out) && out@ == e,
            },
    {
        match Self::grants(write, read) {
            Ok((can_write, can_read)) => self.token_at(
                viewer_id,
                can_write,
                can_read,
                config,
                now_sec,
            ),
            Err(e) => Err(e),
        }
    }

    /// Issues the token for this paper to `viewer_id` now, of the outcomes
    /// of the two checks: what [`Paper::token_for_at`] does at the time that
    /// the clock says.
    pub fn token_for<W, R>(
        &self,
        viewer_id: UserId,
        write: crate::result::Result<W>,
        read: crate::result::Result<R>,
        config: &PaperTokenConfig,
    ) -> (res: Result<PaperToken, Error>)
        ensures
            match capabilities(write, read) {
                Ok((can_write, can_read)) => exists|now: u64| #[trigger]
                    is_token_of(
                        res,
                        viewer_id@,
                        self.0.id@,
                        can_write,
                        can_read,
                        now,
                        config.expires_in_sec,
                        vstd::utf8::encode_utf8(config.secret@),
                    ),
                Err(e) => res matches Err(out) && out@ == e,
            },
    {
        self.token_for_at(viewer_id, write, read, config, now_sec())
    }
}

fn denial_to_read() -> (text: String)
    ensures
        text@ == Capability::Read.denial(),
{
    proof {
        reveal_strlit("You are not allowed to read this user");
        reveal_strlit("You are not allowed to ");
        reveal_strlit("read");
        reveal_strlit(" this user");
        assert("You are not allowed to read this user"@ =~= Capability::Read.denial());
    }
    "You are not allowed to read this user".to_owned()
}

/// The cursor of a paper: its id.
#[derive(Debug, Clone, PartialEq)]
pub struct PaperCursor {
    pub id: PaperId,
}

impl Cursor for PaperCursor {
    open spec fn key(&self) -> Seq<char> {
        self.id@
    }

    fn encode(&self) -> (text: String) {
        encode_key(self.id.as_str())
    }

    fn try_encode(&self) -> (text: Option<String>) {
        try_encode_key(self.id.as_str())
    }

    fn decode(text: &str) -> (cursor: Option<Self>) {
        match decode_key(text) {
            Some(key) => Some(PaperCursor { id: Id::new(key) }),
            None => None,
        }
    }
}

/// The cursor text of the row `id`, where it fits the machine.
pub open spec fn cursor_text(id: Seq<char>) -> Option<Seq<char>> {
    if encodable(id) {
        Some(encoded(id))
    } else {
        None
    }
}

/// A paper in a listing, with its cursor.
#[derive(Debug, Clone, PartialEq)]
pub struct PaperEdge(pub crate::paper::Paper);

impl PaperEdge {
    /// Wraps the value of the core.
    pub fn from(v: crate::paper::Paper) -> (res: Self)
        ensures
            res.0 == v,
    {
        PaperEdge(v)
    }

    /// The paper.
    pub fn node(&self) -> (res: Paper)
        ensures
            res.0@ == self.0@,
    {
        Paper(self.0.clone())
    }

    /// The cursor of the paper.
    pub fn cursor(&self) -> (res: PaperCursor)
        ensures
            res.key() == self.0.id@,
    {
        PaperCursor { id: self.0.id.clone() }
    }
}

/// Whose papers a listing is about.
#[derive(Debug, Clone, PartialEq)]
pub enum PaperConnectionKind {
    User { user_id: UserId },
}

impl PaperConnectionKind {
    /// The user that is to be looked up before the listing starts: the
    /// owner of the papers.
    pub fn owner(&self) -> (res: crate::user::UserIdentifier)
        ensures
            res@ == crate::user::UserIdentifierView::Id(self->user_id@),
    {
        match self {
            PaperConnectionKind::User { user_id } => crate::user::UserIdentifier::Id(
                user_id.clone(),
            ),
        }
    }
}

/// A page of papers as clients see it.
#[derive(Debug, PartialEq)]
pub struct PaperConnection(pub PaginationList<crate::paper::Paper>);

/// The number as the 32-bit signed number that has the same low 32 bits.
pub open spec fn wrapped(total: u64) -> int {
    let low = total as int % 0x1_0000_0000;
    if low >= 0x8000_0000 {
        low - 0x1_0000_0000
    } else {
        low
    }
}

impl PaperConnection {
    /// Starts the listing of the papers of the user that was looked up,
    /// for a viewer who may read them: by id, ascending, where no order is
    /// given, and without the deleted papers where they are not asked for.
    /// Anyone but the user itself is `Forbidden` and no query is started; a
    /// failed lookup stays the failure it is.
    pub fn new(
        viewer_id: &UserId,
        owner: crate::result::Result<crate::user::User>,
        pagination: Pagination<PaperId>,
        order_by: Option<PaperOrder>,
        deleted: Option<bool>,
    ) -> (res: Result<(PaperFilter, PageStep<crate::paper::Paper>), Error>)
        ensures
            match owner {
                Ok(owner) => if permits(viewer_id@, owner.id@) {
                    &&& res matches Ok((filter, step))
                    &&& filter@ == (PaperFilterView {
                        user_id: owner.id@,
                        deleted: match deleted {
                            Some(d) => d,
                            None => false,
                        },
                    })
                    &&& step@ == begin_spec::<crate::paper::Paper>(
                        window_of(pagination),
                        match order_by {
                            Some(order) => field_name(order.field.to_core()),
                            None => field_name(crate::paper::PaperOrderField::Id),
                        },
                        match order_by {
                            Some(order) => order.direction.to_core(),
                            None => crate::pagination::OrderDirection::Asc,
                        },
                    )
                } else {
                    res matches Err(e) && e@ == denied(Capability::Read)
                },
                Err(e) => res matches Err(out) && out@ == e@,
            },
    {
        let order = match order_by {
            Some(order) => order,
            None => PaperOrder { field: PaperOrderField::Id, direction: OrderDirection::Asc },
        };
        let deleted = match deleted {
            Some(d) => d,
            None => false,
        };
        match PaperServiceImpl::select_paper_page_of_repository(
            viewer_id,
            owner,
            pagination,
            order.into(),
            deleted,
        ) {
            Ok(started) => Ok(started),
            Err(e) => Err(Error::from(e)),
        }
    }

    /// The papers of the page, each with its cursor.
    pub fn edges(&self) -> (res: Vec<PaperEdge>)
        ensures
            res@.len() == self.0.list@.len(),
            forall|i: int| 0 <= i < res@.len() ==> (#[trigger] res@[i]).0@ == self.0.list@[i]@,
    {
        let mut out: Vec<PaperEdge> = Vec::new();
        let mut i: usize = 0;
        while i < self.0.list.len()
            invariant
                i <= self.0.list@.len(),
                out@.len() == i,
                forall|k: int| 0 <= k < out@.len() ==> (#[trigger] out@[k]).0@ == self.0.list@[k]@,
            decreases self.0.list@.len() - i,
        {
            out.push(PaperEdge(self.0.list[i].clone()));
            i = i + 1;
        }
        out
    }

    /// The papers of the page.
    pub fn nodes(&self) -> (res: Vec<Paper>)
        ensures
            res@.len() == self.0.list@.len(),
            forall|i: int| 0 <= i < res@.len() ==> (#[trigger] res@[i]).0@ == self.0.list@[i]@,
    {
        let mut out: Vec<Paper> = Vec::new();
        let mut i: usize = 0;
        while i < self.0.list.len()
            invariant
                i <= self.0.list@.len(),
                out@.len() == i,
                forall|k: int| 0 <= k < out@.len() ==> (#[trigger] out@[k]).0@ == self.0.list@[k]@,
            decreases self.0.list@.len() - i,
        {
            out.push(Paper(self.0.list[i].clone()));
            i = i + 1;
        }
        out
    }

    /// Where the page stands: the cursors of its first and its last
    /// paper, none on an empty page, and whether a next page exists.
    pub fn page_info(&self) -> (res: PageInfo)
        ensures
            res.has_next_page == self.0.has_next_page,
            crate::keyset::text_of(res.start_cursor) == if self.0.list@.len() > 0 {
                cursor_text(self.0.list@.first().id@)
            } else {
                None
            },
            crate::keyset::text_of(res.end_cursor) == if self.0.list@.len() > 0 {
                cursor_text(self.0.list@.last().id@)
            } else {
                None
            },
    {
        let n = self.0.list.len();
        if n == 0 {
            PageInfo { start_cursor: None, end_cursor: None, has_next_page: self.0.has_next_page }
        } else {
            PageInfo {
                start_cursor: try_encode_key(self.0.list[0].id.as_str()),
                end_cursor: try_encode_key(self.0.list[n - 1].id.as_str()),
                has_next_page: self.0.has_next_page,
            }
        }
    }

    /// The total as a 32-bit number; a total beyond 32 bits wraps.
    pub fn total(&self) -> (res: i32)
        ensures
            res == wrapped(self.0.total),
            self.0.total <= i32::MAX ==> res == self.0.total,
    {
        let low: u64 = self.0.total % 0x1_0000_0000;
        if low >= 0x8000_0000 {
            (low as i64 - 0x1_0000_0000) as i32
        } else {
            low as i32
        }
    }
}

/// What the deletion of a paper answers with: the paper that was deleted.
#[derive(Debug, Clone, PartialEq)]
pub struct DeletePaperPayload(pub crate::paper::Paper);

impl DeletePaperPayload {
    /// Wraps the value of the core.
    pub fn from(v: crate::paper::Paper) -> (res: Self)
        ensures
            res.0 == v,
    {
        DeletePaperPayload(v)
    }

    /// The id, as text.
    pub fn id(&self) -> (res: String)
        ensures
            res@ == self.0.id@,
    {
        self.0.id.to_string()
    }
}

} // verus!
