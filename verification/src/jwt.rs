//! Signed tokens, as the `jsonwebtoken` crate makes and checks them.

use vstd::prelude::*;

use crate::json::{json_member_of, json_parses};

verus! {

/// The token that carries the JSON text `claims`, signed with `secret` by
/// HMAC-SHA256: `None` where the crate makes none.
pub uninterp spec fn jwt_encoded(claims: Seq<char>, secret: Seq<u8>) -> Option<Seq<char>>;

/// The claims of `token` as JSON text, where `token` is well formed, names
/// HMAC-SHA256 and carries the signature that `secret` gives: `None`
/// otherwise. Expiry has no part in it.
pub uninterp spec fn jwt_claims(token: Seq<char>, secret: Seq<u8>) -> Option<Seq<char>>;

/// The text of the error with which the crate refuses `token` under
/// `secret`, where it refuses it.
pub uninterp spec fn jwt_refusal(token: Seq<char>, secret: Seq<u8>) -> Seq<char>;

/// Whether `token` carries the claims of the JSON text `claims` under
/// `secret`: the token is accepted, and each name gives the same member in
/// its claims as in `claims`.
pub open spec fn carries(token: Seq<char>, secret: Seq<u8>, claims: Seq<char>) -> bool {
    jwt_claims(token, secret) matches Some(text) && forall|key: Seq<char>| #[trigger]
        json_member_of(text, key) == json_member_of(claims, key)
}

/// `jsonwebtoken::encode` with the default header and a key made of
/// `secret`, on the claims that `serde_json::from_str` reads from `claims`.
/// Trusted: the result is the token of these claims. There is one exactly
/// where the text is JSON: with an HMAC key under the default header, which
/// names HMAC-SHA256, no step of the crate fails. And the token of an
/// object with a member carries the claims: the crate accepts it under the
/// same secret, and gives back what it was made of.
#[verifier::external_body]
pub(crate) fn jwt_encode(claims: &str, secret: &[u8]) -> (token: Option<String>)
    ensures
        match token {
            Some(t) => jwt_encoded(claims@, secret@) == Some(t@),
            None => jwt_encoded(claims@, secret@) is None,
        },
        token is Some <==> json_parses(claims@),
        token matches Some(t) ==> ((exists|key: Seq<char>| #[trigger]
            json_member_of(claims@, key) is Some) ==> carries(t@, secret@, claims@)),
{
    let value: serde_json::Value = serde_json::from_str(claims).ok()?;
    let key = jsonwebtoken::EncodingKey::from_secret(secret);
    jsonwebtoken::encode(&jsonwebtoken::Header::default(), &value, &key).ok()
}

/// `jsonwebtoken::decode` with a key made of `secret` and the default
/// validation, but for expiry, which is switched off: the caller checks it
/// against a time of its own. Trusted: the result is the JSON text of the
/// claims of a token that the crate accepts, and otherwise the text of the
/// crate's error. The crate reads the clock on the way and panics where it
/// stands before the Unix epoch.
#[verifier::external_body]
pub(crate) fn jwt_decode(token: &str, secret: &[u8]) -> (claims: Result<String, String>)
    ensures
        match claims {
            Ok(c) => jwt_claims(token@, secret@) == Some(c@),
            Err(e) => jwt_claims(token@, secret@) is None && e@ == jwt_refusal(token@, secret@),
        },
{
    let mut validation = jsonwebtoken::Validation::default();
    validation.validate_exp = false;
    let key = jsonwebtoken::DecodingKey::from_secret(secret);
    match jsonwebtoken::decode::<serde_json::Value>(token, &key, &validation) {
        Ok(data) => Ok(data.claims.to_string()),
        Err(error) => Err(error.to_string()),
    }
}

} // verus!
