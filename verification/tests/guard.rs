use paper::graphql::models::paper::{Paper as PaperModel, PaperTokenConfig};
use paper::guard::{check, check_found, holds, Capability};
use paper::paper::Paper;
use paper::paper_service::{PaperQuery, PaperServiceImpl};
use paper::user::{User, UserId};
use paper::user_service::UserServiceImpl;
use paper::{Error, ErrorKind, Id};

fn user(id: &str) -> User {
    User {
        id: Id::new(id.to_string()),
        created_at: 7,
        name: "Ada".to_string(),
        github_user: None,
        google_user: None,
    }
}

fn id(text: &str) -> UserId {
    Id::new(text.to_string())
}

#[test]
fn owner_holds_every_capability() {
    for capability in [Capability::Read, Capability::Write, Capability::Administer] {
        assert_eq!(check(capability, &id("v"), user("v")), Ok(user("v")));
    }
}

#[test]
fn anyone_else_is_forbidden() {
    assert_eq!(
        check(Capability::Read, &id("w"), user("v")),
        Err(Error::forbidden(Some("You are not allowed to read this user".to_string())))
    );
    assert_eq!(
        check(Capability::Write, &id("w"), user("v")),
        Err(Error::forbidden(Some("You are not allowed to write this user".to_string())))
    );
    assert_eq!(
        check(Capability::Administer, &id("w"), user("v")),
        Err(Error::forbidden(Some("You are not allowed to administer this user".to_string())))
    );
}

#[test]
fn a_check_can_be_repeated() {
    assert_eq!(
        check(Capability::Write, &id("w"), user("v")),
        check(Capability::Write, &id("w"), user("v"))
    );
}

#[test]
fn a_failed_lookup_stays_the_failure_it_is() {
    let missing = Error::not_found(Some("User not found".to_string()));
    assert_eq!(
        check_found(Capability::Read, &id("v"), Err(missing.clone())),
        Err(missing.clone())
    );
    let down = Error::unavailable(Some("timeout".to_string()));
    assert_eq!(UserServiceImpl::can_viewer_write_user(&id("v"), Err(down.clone())), Err(down));
    assert_eq!(check_found(Capability::Read, &id("v"), Ok(user("v"))), Ok(user("v")));
}

#[test]
fn forbidden_differs_from_not_found() {
    let forbidden = UserServiceImpl::can_viewer_read_user(&id("w"), Ok(user("v"))).unwrap_err();
    let missing =
        UserServiceImpl::can_viewer_read_user(&id("w"), UserServiceImpl::find_user(None))
            .unwrap_err();
    assert_eq!(forbidden.kind, ErrorKind::Forbidden);
    assert_eq!(missing.kind, ErrorKind::NotFound);
}

#[test]
fn the_services_check_by_capability() {
    assert_eq!(UserServiceImpl::can_viewer_read_user(&id("v"), Ok(user("v"))), Ok(user("v")));
    assert_eq!(UserServiceImpl::can_viewer_write_user(&id("v"), Ok(user("v"))), Ok(user("v")));
    assert_eq!(
        UserServiceImpl::can_viewer_administer_user(&id("v"), Ok(user("v"))),
        Ok(user("v"))
    );
    assert_eq!(
        UserServiceImpl::can_viewer_administer_user(&id("w"), Ok(user("v"))).unwrap_err().message,
        Some("You are not allowed to administer this user".to_string())
    );
}

fn paper(paper_id: &str, owner: &str) -> Paper {
    Paper {
        id: Id::new(paper_id.to_string()),
        user_id: id(owner),
        created_at: 1,
        updated_at: 1,
        deleted_at: None,
        title: None,
    }
}

#[test]
fn the_owner_gets_the_paper_or_not_found() {
    let n1 = Id::new("n1".to_string());
    let missing = Err(Error::not_found(Some("Paper not found".to_string())));
    assert_eq!(
        PaperServiceImpl::can_viewer_write_paper(
            &id("v"),
            Ok(user("v")),
            &n1,
            Ok(Some(paper("n1", "v")))
        ),
        Ok(paper("n1", "v"))
    );
    assert_eq!(
        PaperServiceImpl::can_viewer_read_paper(&id("v"), Ok(user("v")), &n1, Ok(None)),
        missing
    );
    assert_eq!(
        PaperServiceImpl::can_viewer_write_paper(
            &id("v"),
            Ok(user("v")),
            &n1,
            Ok(Some(paper("n1", "w")))
        ),
        missing
    );
    assert_eq!(
        PaperServiceImpl::select_paper(&id("v"), Ok(user("v")), &n1, Ok(Some(paper("n2", "v")))),
        missing
    );
    assert_eq!(
        PaperServiceImpl::find_paper(&n1, &id("v"), Some(paper("n1", "v"))),
        Ok(paper("n1", "v"))
    );
    assert_eq!(PaperServiceImpl::find_paper(&n1, &id("v"), None), missing);
}

#[test]
fn another_viewer_is_refused_whatever_is_found() {
    let n1 = Id::new("n1".to_string());
    for found in [Ok(Some(paper("n1", "v"))), Ok(None), Err(Error::unavailable(None))] {
        assert_eq!(
            PaperServiceImpl::can_viewer_write_paper(&id("w"), Ok(user("v")), &n1, found.clone()),
            Err(Error::forbidden(Some("You are not allowed to write this user".to_string())))
        );
        assert_eq!(
            PaperServiceImpl::can_viewer_read_paper(&id("w"), Ok(user("v")), &n1, found),
            Err(Error::forbidden(Some("You are not allowed to read this user".to_string())))
        );
    }
}

#[test]
fn failed_lookups_are_handed_on() {
    let n1 = Id::new("n1".to_string());
    let gone = Error::not_found(Some("User not found".to_string()));
    assert_eq!(
        PaperServiceImpl::can_viewer_read_paper(
            &id("v"),
            Err(gone.clone()),
            &n1,
            Ok(Some(paper("n1", "v")))
        ),
        Err(gone)
    );
    let down = Error::unavailable(Some("timeout".to_string()));
    assert_eq!(
        PaperServiceImpl::can_viewer_read_paper(&id("v"), Ok(user("v")), &n1, Err(down.clone())),
        Err(down)
    );
}

#[test]
fn the_paper_is_looked_up_for_the_owner_alone() {
    let n1 = Id::new("n1".to_string());
    assert_eq!(
        PaperServiceImpl::paper_query(&id("v"), &Ok(user("v")), &n1),
        Some(PaperQuery { paper_id: "n1".to_string(), user_id: "v".to_string() })
    );
    assert_eq!(PaperServiceImpl::paper_query(&id("w"), &Ok(user("v")), &n1), None);
    assert_eq!(PaperServiceImpl::paper_query(&id("v"), &Err(Error::not_found(None)), &n1), None);
}

#[test]
fn what_a_viewer_is_granted() {
    let ok: Result<u8, Error> = Ok(0);
    let no: Result<u8, Error> = Err(Error::forbidden(None));
    let down: Result<u8, Error> = Err(Error::unavailable(None));
    assert_eq!(PaperModel::grants(ok.clone(), no.clone()), Ok((true, true)));
    assert_eq!(PaperModel::grants(ok.clone(), down.clone()), Ok((true, true)));
    assert_eq!(PaperModel::grants(no.clone(), ok.clone()), Ok((false, true)));
    assert_eq!(PaperModel::grants(no.clone(), no.clone()), Ok((false, false)));
    assert_eq!(
        PaperModel::grants(no.clone(), down.clone()).unwrap_err().kind,
        paper::graphql::ErrorKind::Unavailable
    );
    assert_eq!(
        PaperModel::grants(down, ok).unwrap_err().kind,
        paper::graphql::ErrorKind::Unavailable
    );
}

#[test]
fn a_denial_is_an_answer() {
    assert_eq!(holds(check(Capability::Write, &id("v"), user("v"))), Ok(true));
    assert_eq!(holds(check(Capability::Write, &id("w"), user("v"))), Ok(false));
    let down = Error::unavailable(None);
    assert_eq!(holds::<User>(Err(down.clone())), Err(down));
}

#[test]
fn a_write_token_goes_to_the_owner_alone() {
    let paper = PaperModel(Paper {
        id: Id::new("n1".to_string()),
        user_id: id("v"),
        created_at: 1,
        updated_at: 1,
        deleted_at: None,
        title: None,
    });
    let config = PaperTokenConfig { expires_in_sec: 60, secret: "k".to_string() };
    let n1 = Id::new("n1".to_string());
    let stored = || Ok(Some(paper.0.clone()));
    let grant = |viewer: &str| {
        paper.token_for_at(
            id(viewer),
            PaperServiceImpl::can_viewer_write_paper(&id(viewer), Ok(user("v")), &n1, stored()),
            PaperServiceImpl::can_viewer_read_paper(&id(viewer), Ok(user("v")), &n1, stored()),
            &config,
            1000,
        )
    };
    let token = grant("v").unwrap();
    assert_eq!(token.token_type, "Bearer");
    let mut validation = jsonwebtoken::Validation::default();
    validation.validate_exp = false;
    let claims = jsonwebtoken::decode::<serde_json::Value>(
        &token.access_token,
        &jsonwebtoken::DecodingKey::from_secret(b"k"),
        &validation,
    )
    .unwrap()
    .claims;
    assert_eq!(claims.get("read_only"), Some(&serde_json::Value::Bool(false)));
    assert_eq!(claims.get("sub").and_then(|v| v.as_str()), Some("v"));
    assert_eq!(claims.get("paper_id").and_then(|v| v.as_str()), Some("n1"));
    assert_eq!(claims.get("exp").and_then(|v| v.as_u64()), Some(1060));
    assert_eq!(
        grant("w").unwrap_err(),
        paper::graphql::Error::forbidden(Some(
            "You are not allowed to read this user".to_string()
        ))
    );
    assert!(paper.token_for(id("v"), Ok(1), Ok(1), &config).is_ok());
    let stale: Result<u8, Error> = Err(Error::unavailable(None));
    assert_eq!(
        paper.token_for_at(id("v"), stale, Ok(1), &config, 1).unwrap_err().kind,
        paper::graphql::ErrorKind::Unavailable
    );
}
