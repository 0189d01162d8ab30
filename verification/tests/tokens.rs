use paper::auth::{AccessToken, AccessTokenPayload};
use paper::graphql::context::{bearer_token, Context};
use paper::graphql::models::paper::{Paper as PaperModel, PaperTokenConfig, PaperTokenPayload};
use paper::paper::Paper;
use paper::user::User;
use paper::{ErrorKind, Id};

const SECRET: &[u8] = b"session secret";

fn user(id: &str) -> User {
    User {
        id: Id::new(id.to_string()),
        created_at: 7,
        name: "Ada".to_string(),
        github_user: None,
        google_user: None,
    }
}

fn claims_of(token: &str, secret: &[u8]) -> serde_json::Value {
    let mut validation = jsonwebtoken::Validation::default();
    validation.validate_exp = false;
    jsonwebtoken::decode::<serde_json::Value>(
        token,
        &jsonwebtoken::DecodingKey::from_secret(secret),
        &validation,
    )
    .unwrap()
    .claims
}

#[test]
fn payload_expires_after_its_lifetime() {
    let payload = AccessTokenPayload::at(Id::new("u1".to_string()), 1000, 60).unwrap();
    assert_eq!(payload.iat, 1000);
    assert_eq!(payload.exp, 1060);
    assert_eq!(payload.sub.as_str(), "u1");
}

#[test]
fn payload_past_the_end_of_time_is_none() {
    assert_eq!(AccessTokenPayload::at(Id::new("u1".to_string()), u64::MAX, 1), None);
    assert!(AccessTokenPayload::at(Id::new("u1".to_string()), u64::MAX - 1, 1).is_some());
}

#[test]
fn payload_made_now_lasts_its_lifetime() {
    let payload = AccessTokenPayload::new(Id::new("u1".to_string()), 3600).unwrap();
    assert_eq!(payload.exp - payload.iat, 3600);
    assert!(payload.iat > 1_600_000_000);
}

#[test]
fn token_is_signed_claims() {
    let payload = AccessTokenPayload::at(Id::new("u1".to_string()), 1000, 60).unwrap();
    let token = payload.encode(SECRET).unwrap();
    assert_eq!(token.split('.').count(), 3);
    let claims = claims_of(&token, SECRET);
    assert_eq!(claims.get("iat").and_then(|v| v.as_u64()), Some(1000));
    assert_eq!(claims.get("exp").and_then(|v| v.as_u64()), Some(1060));
    assert_eq!(claims.get("sub").and_then(|v| v.as_str()), Some("u1"));
}

#[test]
fn token_decodes_to_its_claims_before_expiry() {
    let payload = AccessTokenPayload::at(Id::new("u1".to_string()), 1000, 60).unwrap();
    let token = payload.encode(SECRET).unwrap();
    assert_eq!(AccessTokenPayload::decode_at(&token, SECRET, 1000), Ok(payload.clone()));
    assert_eq!(AccessTokenPayload::decode_at(&token, SECRET, 1059), Ok(payload));
}

#[test]
fn token_is_expired_at_its_expiry() {
    let payload = AccessTokenPayload::at(Id::new("u1".to_string()), 1000, 60).unwrap();
    let token = payload.encode(SECRET).unwrap();
    let at = AccessTokenPayload::decode_at(&token, SECRET, 1060).unwrap_err();
    assert_eq!(at.kind, ErrorKind::Unauthorized);
    assert_eq!(at.message, Some("ExpiredSignature".to_string()));
    let past = AccessTokenPayload::decode_at(&token, SECRET, 5000).unwrap_err();
    assert_eq!(past.kind, ErrorKind::Unauthorized);
}

#[test]
fn token_under_another_secret_is_unauthorized() {
    let payload = AccessTokenPayload::at(Id::new("u1".to_string()), 1000, 60).unwrap();
    let token = payload.encode(SECRET).unwrap();
    let err = AccessTokenPayload::decode_at(&token, b"another", 1001).unwrap_err();
    assert_eq!(err.kind, ErrorKind::Unauthorized);
    assert_eq!(err.message, Some("InvalidSignature".to_string()));
}

#[test]
fn tampered_token_is_unauthorized() {
    let payload = AccessTokenPayload::at(Id::new("u1".to_string()), 1000, 60).unwrap();
    let token = payload.encode(SECRET).unwrap();
    let other = AccessTokenPayload::at(Id::new("u2".to_string()), 1000, 60)
        .unwrap()
        .encode(SECRET)
        .unwrap();
    let parts: Vec<&str> = token.split('.').collect();
    let others: Vec<&str> = other.split('.').collect();
    let forged = format!("{}.{}.{}", parts[0], others[1], parts[2]);
    let err = AccessTokenPayload::decode_at(&forged, SECRET, 1001).unwrap_err();
    assert_eq!(err.kind, ErrorKind::Unauthorized);
    let err = AccessTokenPayload::decode_at("not a token", SECRET, 1001).unwrap_err();
    assert_eq!(err.kind, ErrorKind::Unauthorized);
}

#[test]
fn token_without_session_claims_is_unauthorized() {
    let mut claims = serde_json::Map::new();
    claims.insert("exp".to_string(), serde_json::Value::from(2000u64));
    claims.insert("sub".to_string(), serde_json::Value::from("u1"));
    let token = jsonwebtoken::encode(
        &jsonwebtoken::Header::default(),
        &claims,
        &jsonwebtoken::EncodingKey::from_secret(SECRET),
    )
    .unwrap();
    let err = AccessTokenPayload::decode_at(&token, SECRET, 1001).unwrap_err();
    assert_eq!(err.kind, ErrorKind::Unauthorized);
    assert_eq!(err.message, Some("Invalid token claims".to_string()));
}

#[test]
fn token_decoded_now() {
    let now = AccessTokenPayload::new(Id::new("u1".to_string()), 0).unwrap().iat;
    let live = AccessTokenPayload::at(Id::new("u1".to_string()), now, 1000).unwrap();
    assert_eq!(AccessTokenPayload::decode(&live.encode(SECRET).unwrap(), SECRET), Ok(live));
    let stale = AccessTokenPayload::at(Id::new("u1".to_string()), 1000, 60).unwrap();
    let err = AccessTokenPayload::decode(&stale.encode(SECRET).unwrap(), SECRET).unwrap_err();
    assert_eq!(err.kind, ErrorKind::Unauthorized);
}

#[test]
fn tokens_of_a_user() {
    let tokens =
        AccessToken::at(user("u1"), 1000, (60, SECRET), (86400, b"refresh secret")).unwrap();
    assert_eq!(tokens.token_type, "Bearer");
    assert_eq!(tokens.expires_in, 60);
    let access = AccessTokenPayload::decode_at(&tokens.access_token, SECRET, 1001).unwrap();
    assert_eq!((access.iat, access.exp, access.sub.as_str()), (1000, 1060, "u1"));
    let refresh =
        AccessTokenPayload::decode_at(&tokens.refresh_token, b"refresh secret", 1061).unwrap();
    assert_eq!((refresh.iat, refresh.exp, refresh.sub.as_str()), (1000, 87400, "u1"));
    assert!(AccessTokenPayload::decode_at(&tokens.refresh_token, SECRET, 1001).is_err());
}

#[test]
fn tokens_past_the_end_of_time_are_unknown() {
    let err = AccessToken::at(user("u1"), u64::MAX, (60, SECRET), (0, SECRET)).unwrap_err();
    assert_eq!(err.kind, ErrorKind::Unknown);
    assert_eq!(err.message, Some("Token expiry is out of range".to_string()));
}

#[test]
fn tokens_issued_now() {
    let tokens = AccessToken::new(user("u1"), (60, SECRET), (120, SECRET)).unwrap();
    assert_eq!(tokens.token_type, "Bearer");
    assert_eq!(tokens.expires_in, 60);
    assert!(AccessTokenPayload::decode(&tokens.access_token, SECRET).is_ok());
}

fn page(id: &str, owner: &str) -> PaperModel {
    PaperModel(Paper {
        id: Id::new(id.to_string()),
        user_id: Id::new(owner.to_string()),
        created_at: 1,
        updated_at: 2,
        deleted_at: None,
        title: Some("Notes".to_string()),
    })
}

fn config() -> PaperTokenConfig {
    PaperTokenConfig { expires_in_sec: 300, secret: "paper secret".to_string() }
}

#[test]
fn owner_gets_a_token_that_is_not_restricted() {
    let paper = page("n1", "v");
    let token = paper.token_at(Id::new("v".to_string()), true, true, &config(), 1000).unwrap();
    assert_eq!(token.token_type, "Bearer");
    assert_eq!(token.expires_in, "300");
    let claims = claims_of(&token.access_token, b"paper secret");
    assert_eq!(claims.get("read_only"), Some(&serde_json::Value::Bool(false)));
    assert_eq!(claims.get("sub").and_then(|v| v.as_str()), Some("v"));
    assert_eq!(claims.get("paper_id").and_then(|v| v.as_str()), Some("n1"));
    assert_eq!(claims.get("iat").and_then(|v| v.as_u64()), Some(1000));
    assert_eq!(claims.get("exp").and_then(|v| v.as_u64()), Some(1300));
}

#[test]
fn reader_gets_a_token_restricted_to_reading() {
    let paper = page("n1", "v");
    let token = paper.token_at(Id::new("r".to_string()), false, true, &config(), 1000).unwrap();
    let claims = claims_of(&token.access_token, b"paper secret");
    assert_eq!(claims.get("read_only"), Some(&serde_json::Value::Bool(true)));
    assert_eq!(claims.get("sub").and_then(|v| v.as_str()), Some("r"));
}

#[test]
fn stranger_gets_no_token() {
    let paper = page("n1", "v");
    let err = paper.token_at(Id::new("w".to_string()), false, false, &config(), 1000).unwrap_err();
    assert_eq!(err.kind, paper::graphql::ErrorKind::Forbidden);
    assert_eq!(err.message, Some("You are not allowed to read this user".to_string()));
}

#[test]
fn paper_token_past_the_end_of_time_is_unknown() {
    let paper = page("n1", "v");
    let err =
        paper.token_at(Id::new("v".to_string()), true, true, &config(), u64::MAX).unwrap_err();
    assert_eq!(err.kind, paper::graphql::ErrorKind::Unknown);
}

#[test]
fn paper_token_issued_now() {
    let paper = page("n1", "v");
    let token = paper.token(Id::new("v".to_string()), true, true, &config()).unwrap();
    let claims = claims_of(&token.access_token, b"paper secret");
    let iat = claims.get("iat").and_then(|v| v.as_u64()).unwrap();
    let exp = claims.get("exp").and_then(|v| v.as_u64()).unwrap();
    assert_eq!(exp - iat, 300);
}

#[test]
fn paper_payload_with_unset_restriction_writes_null() {
    let payload = PaperTokenPayload::at(
        Id::new("v".to_string()),
        10,
        5,
        Id::new("n1".to_string()),
        None,
    )
    .unwrap();
    assert_eq!(payload.exp, 15);
    let claims = claims_of(&payload.encode(b"k").unwrap(), b"k");
    assert_eq!(claims.get("read_only"), Some(&serde_json::Value::Null));
    assert_eq!(
        PaperTokenPayload::at(Id::new("v".to_string()), u64::MAX, 5, Id::new("p".to_string()), None),
        None
    );
    let made =
        PaperTokenPayload::new(Id::new("v".to_string()), 9, Id::new("n1".to_string()), Some(true))
            .unwrap();
    assert_eq!(made.exp - made.iat, 9);
    assert_eq!(made.read_only, Some(true));
}

#[test]
fn bearer_token_follows_the_prefix() {
    assert_eq!(bearer_token("Bearer abc.def"), Some("abc.def".to_string()));
    assert_eq!(bearer_token("Bearer Bearer x"), Some("x".to_string()));
    assert_eq!(bearer_token("Bearer "), Some(String::new()));
    assert_eq!(bearer_token("bearer abc"), None);
    assert_eq!(bearer_token("Basic abc"), None);
    assert_eq!(bearer_token(""), None);
    assert_eq!(bearer_token("Bearer é✓"), Some("é✓".to_string()));
}

#[test]
fn context_knows_the_viewer_by_the_token() {
    let token = AccessTokenPayload::at(Id::new("u1".to_string()), 1000, 60)
        .unwrap()
        .encode(SECRET)
        .unwrap();
    let context = Context {
        access_token_secret: "session secret".to_string(),
        access_token: Some(token),
    };
    assert_eq!(context.access_token_at(1001).unwrap().sub.as_str(), "u1");
    let expired = context.access_token_at(1060).unwrap_err();
    assert_eq!(expired.kind, paper::graphql::ErrorKind::Unauthorized);
    assert_eq!(context.access_token().unwrap_err().kind, paper::graphql::ErrorKind::Unauthorized);
}

#[test]
fn context_without_a_token_is_unauthorized() {
    let context = Context { access_token_secret: "s".to_string(), access_token: None };
    let err = context.access_token_at(1).unwrap_err();
    assert_eq!(err.kind, paper::graphql::ErrorKind::Unauthorized);
    assert_eq!(err.message, Some("AccessToken is not present".to_string()));
}
