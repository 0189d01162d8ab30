use vstd::prelude::*;
use vstd::string::StrSliceExecFns;
use vstd::utf8::encode_utf8;

use crate::auth::{accepted, refusal, AccessTokenPayload};
use crate::clock::now_sec;
use crate::graphql::result::Error;
use crate::result::ErrorView;

verus! {

/// Whether `s` begins with `prefix`.
pub open spec fn starts_with(s: Seq<char>, prefix: Seq<char>) -> bool {
    prefix.len() <= s.len() && s.take(prefix.len() as int) == prefix
}

/// `s` without `prefix` at its start, as often as it stands there.
pub open spec fn without_leading(s: Seq<char>, prefix: Seq<char>) -> Seq<char>
    decreases s.len(),
{
    if prefix.len() > 0 && starts_with(s, prefix) {
        without_leading(s.skip(prefix.len() as int), prefix)
    } else {
        s
    }
}

/// The token that an `Authorization` header bears: what follows
/// `Bearer `. A header that does not begin so bears none.
pub open spec fn bearer(header: Seq<char>) -> Option<Seq<char>> {
    if starts_with(header, "Bearer "@) {
        Some(without_leading(header, "Bearer "@))
    } else {
        None
    }
}

fn starts_at(s: &str, len: usize, at: usize, prefix: &str, prefix_len: usize) -> (res: bool)
    requires
        len == s@.len(),
        prefix_len == prefix@.len(),
        at <= len,
    ensures
        res == starts_with(s@.skip(at as int), prefix@),
{
    if len - at < prefix_len {
        return false;
    }
    let mut i: usize = 0;
    while i < prefix_len
        invariant
            len == s@.len(),
            prefix_len == prefix@.len(),
            at + prefix_len <= len,
            i <= prefix_len,
            forall|k: int| 0 <= k < i ==> s@[at + k] == prefix@[k],
        decreases prefix_len - i,
    {
        if s.get_char(at + i) != prefix.get_char(i) {
            assert(s@.skip(at as int).take(prefix_len as int)[i as int] != prefix@[i as int]);
            return false;
        }
        i = i + 1;
    }
    assert(s@.skip(at as int).take(prefix_len as int) =~= prefix@);
    true
}

/// The token that an `Authorization` header bears.
pub fn bearer_token(header: &str) -> (token: Option<String>)
    ensures
        match token {
            Some(t) => bearer(header@) == Some(t@),
            None => bearer(header@) is None,
        },
{
    let prefix = "Bearer ";
    proof {
        reveal_strlit("Bearer ");
    }
    let len = header.unicode_len();
    let prefix_len = prefix.unicode_len();
    assert(header@.skip(0) =~= header@);
    if !starts_at(header, len, 0, prefix, prefix_len) {
        return None;
    }
    let mut at: usize = 0;
    while starts_at(header, len, at, prefix, prefix_len)
        invariant
            len == header@.len(),
            prefix_len == prefix@.len(),
            prefix_len == 7,
            at <= len,
            without_leading(header@, prefix@) == without_leading(header@.skip(at as int), prefix@),
        decreases len - at,
    {
        assert(header@.skip(at as int).skip(prefix_len as int) =~= header@.skip(
            at + prefix_len,
        ));
        at = at + prefix_len;
    }
    assert(header@.skip(at as int) =~= header@.subrange(at as int, len as int));
    Some(header.substring_char(at, len).to_owned())
}

/// What a request brings along: the session token that it bears, if
/// any, and the secret that session tokens are signed with.
#[derive(Debug, Clone, PartialEq)]
pub struct Context {
    pub access_token_secret: String,
    pub access_token: Option<String>,
}

impl Context {
    /// The claims of the viewer at the time `now_sec`, or why the viewer
    /// is not known.
    pub open spec fn viewer(self, now_sec: u64) -> Result<crate::auth::Claims, ErrorView> {
        match self.access_token {
            Some(token) => match accepted(token@, encode_utf8(self.access_token_secret@), now_sec) {
                Some(claims) => Ok(claims),
                None => Err(
                    ErrorView {
                        kind: crate::result::ErrorKind::Unauthorized,
                        message: Some(
                            refusal(token@, encode_utf8(self.access_token_secret@), now_sec),
                        ),
                    },
                ),
            },
            None => Err(
                ErrorView {
                    kind: crate::result::ErrorKind::Unauthorized,
                    message: Some("AccessToken is not present"@),
                },
            ),
        }
    }

    /// The claims of the session token of the request at the time
    /// `now_sec`. A request without a token, or with one that is not
    /// accepted, is `Unauthorized`.
    pub fn access_token_at(&self, now_sec: u64) -> (res: Result<AccessTokenPayload, Error>)
        ensures
            match res {
                Ok(p) => self.viewer(now_sec) == Ok::<crate::auth::Claims, ErrorView>(p@),
                Err(e) => self.viewer(now_sec) == Err::<crate::auth::Claims, ErrorView>(e@),
            },
            res matches Ok(p) ==> now_sec < p.exp,
    {
        match &self.access_token {
            Some(token) => {
                match AccessTokenPayload::decode_at(
                    token.as_str(),
                    self.access_token_secret.as_str().as_bytes(),
                    now_sec,
                ) {
                    Ok(payload) => Ok(payload),
                    Err(e) => Err(Error::from(e)),
                }
            },
            None => Err(Error::unauthorized(Some("AccessToken is not present".to_owned()))),
        }
    }

    /// The claims of the session token of the request now: what
    /// [`Context::access_token_at`] gives at the time that the clock says.
    pub fn access_token(&self) -> (res: Result<AccessTokenPayload, Error>)
        ensures
            exists|now: u64|
                match res {
                    Ok(p) => #[trigger] self.viewer(now) == Ok::<crate::auth::Claims, ErrorView>(
                        p@,
                    ),
                    Err(e) => self.viewer(now) == Err::<crate::auth::Claims, ErrorView>(e@),
                },
    {
        self.access_token_at(now_sec())
    }
}

} // verus!
