use paper::cursor::{decode_key, try_encode_key, Cursor};
use paper::graphql::models::auth::{
    AccessToken as AccessTokenModel, CreateAccessTokenGithubInput,
    CreateAccessTokenGoogleAccessTokenInput, CreateAccessTokenGoogleInput,
    CreateAccessTokenInput as InputModel, CreateAccessTokenRefreshTokenInput,
};
use paper::graphql::models::paper::{
    DeletePaperPayload, Paper as PaperModel, PaperConnection, PaperConnectionKind, PaperCursor,
    PaperEdge, PaperOrder, PaperOrderField as FieldModel,
};
use paper::graphql::models::user::{
    answer_of, UpdateUserInput as UpdateModel, User as UserModel,
    UserIdentifier as IdentifierModel,
};
use paper::graphql::logger::{LogLevelFilter, Logger};
use paper::graphql::{
    Config, ConfigAccessToken, ConfigGithubAuth, ConfigGoogleAuth, ConfigStorage, PageInfo,
};
use paper::keyset::{KeysetBound, PageQuery, PageStep, StoreRequest};
use paper::paper::{Paper, PaperOrderField};
use paper::paper_service::{paper_order_to_str, PaperFilter, PaperServiceImpl};
use paper::store::{from_doc, new_id, to_doc};
use paper::text::decimal_text;
use paper::user::{CreateUserInput, UpdateUserInput, User, UserIdentifier};
use paper::user_service::{UserServiceImpl, UserUpdate};
use paper::{Error, ErrorKind, Id, OrderBy, OrderDirection, Pagination, PaginationList};

fn paper(id: &str, owner: &str) -> Paper {
    Paper {
        id: Id::new(id.to_string()),
        user_id: Id::new(owner.to_string()),
        created_at: 1600000000000,
        updated_at: 1600000000001,
        deleted_at: None,
        title: Some("Notes".to_string()),
    }
}

#[test]
fn errors_print_kind_and_message() {
    assert_eq!(Error::unauthorized(None).to_string(), "UNAUTHORIZED: None");
    assert_eq!(Error::forbidden(Some("no".to_string())).to_string(), "FORBIDDEN: no");
    assert_eq!(Error::not_found(Some("x".to_string())).to_string(), "NOT_FOUND: x");
    assert_eq!(Error::invalid_input(None).to_string(), "INVALID_INPUT: None");
    assert_eq!(Error::unavailable(Some("".to_string())).to_string(), "UNAVAILABLE: ");
    assert_eq!(Error::unknown(Some("?".to_string())).to_string(), "UNKNOWN: ?");
    assert_eq!(ErrorKind::NotFound.to_string(), "NOT_FOUND");
}

#[test]
fn errors_of_the_core_keep_kind_and_message_at_the_boundary() {
    let kinds = [
        (Error::unauthorized(None), paper::graphql::ErrorKind::Unauthorized),
        (Error::forbidden(Some("m".to_string())), paper::graphql::ErrorKind::Forbidden),
        (Error::not_found(None), paper::graphql::ErrorKind::NotFound),
        (Error::invalid_input(None), paper::graphql::ErrorKind::InvalidInput),
        (Error::unavailable(None), paper::graphql::ErrorKind::Unavailable),
        (Error::unknown(None), paper::graphql::ErrorKind::Unknown),
    ];
    for (core, kind) in kinds {
        let message = core.message.clone();
        let outer = paper::graphql::Error::from(core.clone());
        assert_eq!(outer.kind, kind);
        assert_eq!(outer.message, message);
        assert_eq!(outer.into_core(), core);
    }
    assert_eq!(
        paper::graphql::Error::unauthorized(Some("m".to_string())).to_string(),
        "UNAUTHORIZED: m"
    );
    assert_eq!(paper::graphql::Error::forbidden(None).to_string(), "FORBIDDEN: None");
    assert_eq!(paper::graphql::Error::invalid_input(None).to_string(), "INVALID_INPUT: None");
    assert_eq!(paper::graphql::Error::unknown(None).to_string(), "UNKNOWN: None");
    assert_eq!(paper::graphql::ErrorKind::Unavailable.to_string(), "UNAVAILABLE");
}

#[test]
fn numbers_in_decimal() {
    assert_eq!(decimal_text(0), "0");
    assert_eq!(decimal_text(7), "7");
    assert_eq!(decimal_text(10), "10");
    assert_eq!(decimal_text(1600000000001), "1600000000001");
    assert_eq!(decimal_text(u64::MAX), u64::MAX.to_string());
}

#[test]
fn ids_are_strings() {
    let id: Id<u8> = Id::new("abc".to_string());
    assert_eq!(id.as_str(), "abc");
    assert_eq!(id.to_string(), "abc");
    assert_eq!(id.clone(), id);
    assert_ne!(id, Id::new("abd".to_string()));
    assert_eq!(id.into_string(), "abc");
    assert_eq!(Id::<u8>::default().as_str(), "");
}

#[test]
fn new_ids_are_object_ids() {
    let id = new_id();
    assert_eq!(id.len(), 24);
    assert!(id.chars().all(|c| c.is_ascii_digit() || ('a'..='f').contains(&c)));
    assert_ne!(id, new_id());
}

#[test]
fn the_id_changes_its_name_at_the_store() {
    let mut entity = bson::Document::new();
    entity.insert("id", "n1");
    entity.insert("title", "Notes");
    let stored = to_doc(entity);
    assert_eq!(stored.get_str("_id"), Ok("n1"));
    assert_eq!(stored.get_str("title"), Ok("Notes"));
    assert!(!stored.contains_key("id"));
    let back = from_doc(stored).unwrap();
    assert_eq!(back.get_str("id"), Ok("n1"));
    assert_eq!(back.get_str("title"), Ok("Notes"));
    assert!(!back.contains_key("_id"));
}

#[test]
fn a_document_without_an_id() {
    let mut entity = bson::Document::new();
    entity.insert("title", "Notes");
    assert_eq!(to_doc(entity.clone()), entity);
    assert_eq!(
        from_doc(entity),
        Err(Error::unknown(Some(
            "Convert document to object require id property exist".to_string()
        )))
    );
}

#[test]
fn paper_cursor_round_trip() {
    let cursor = PaperCursor { id: Id::new("5f8d0d55b54764421b7156c3".to_string()) };
    let text = cursor.try_encode().unwrap();
    assert_eq!(text, cursor.encode());
    assert_eq!(PaperCursor::decode(&text), Some(cursor));
    let odd = PaperCursor { id: Id::new("a\"b\\c/é\n✓".to_string()) };
    assert_eq!(PaperCursor::decode(&odd.encode()), Some(odd));
}

#[test]
fn tampered_cursor_decodes_to_none() {
    let text = try_encode_key("n1").unwrap();
    assert_eq!(decode_key(&text[1..]), None);
    assert_eq!(decode_key(&format!("{}x", text)), None);
    assert_eq!(decode_key(""), None);
    assert_eq!(decode_key("eyJpZCI6MX0="), None);
    assert_eq!(decode_key("/w=="), None);
    assert_eq!(PaperCursor::decode("####"), None);
    assert_eq!(decode_key(&text), decode_key(&text));
}

#[test]
fn one_input_of_four() {
    let none = InputModel { github: None, google: None, google_access_token: None, refresh_token: None };
    let github = CreateAccessTokenGithubInput { client_id: "c".to_string(), code: "x".to_string() };
    let google = CreateAccessTokenGoogleInput { client_id: "g".to_string(), code: "y".to_string() };
    let token = CreateAccessTokenGoogleAccessTokenInput { access_token: "t".to_string() };
    let refresh = CreateAccessTokenRefreshTokenInput { refresh_token: "r".to_string() };
    assert_eq!(
        InputModel { github: Some(github.clone()), ..none.clone() }.try_into(),
        Ok(paper::auth::CreateAccessTokenInput::Github {
            client_id: "c".to_string(),
            code: "x".to_string()
        })
    );
    assert_eq!(
        InputModel { google: Some(google.clone()), ..none.clone() }.try_into(),
        Ok(paper::auth::CreateAccessTokenInput::Google {
            client_id: "g".to_string(),
            code: "y".to_string()
        })
    );
    assert_eq!(
        InputModel { google_access_token: Some(token), ..none.clone() }.try_into(),
        Ok(paper::auth::CreateAccessTokenInput::GoogleAccessToken {
            access_token: "t".to_string()
        })
    );
    assert_eq!(
        InputModel { refresh_token: Some(refresh.clone()), ..none.clone() }.try_into(),
        Ok(paper::auth::CreateAccessTokenInput::RefreshToken { refresh_token: "r".to_string() })
    );
    let invalid = paper::graphql::Error::invalid_input(Some(
        "Invalid CreateAccessTokenInput".to_string(),
    ));
    assert_eq!(none.clone().try_into(), Err(invalid.clone()));
    assert_eq!(
        InputModel { github: Some(github), refresh_token: Some(refresh), ..none }.try_into(),
        Err(invalid)
    );
}

#[test]
fn tokens_as_clients_see_them() {
    let model = AccessTokenModel::from(paper::auth::AccessToken {
        access_token: "a".to_string(),
        token_type: "Bearer".to_string(),
        expires_in: 3600,
        refresh_token: "r".to_string(),
    });
    assert_eq!(model.access_token(), "a");
    assert_eq!(model.token_type(), "Bearer");
    assert_eq!(model.expires_in(), "3600");
    assert_eq!(model.refresh_token(), "r");
}

#[test]
fn a_user_is_named_by_id_or_else_by_name() {
    let both = IdentifierModel { id: Some("u1".to_string()), name: Some("Ada".to_string()) };
    assert_eq!(both.try_into(), Ok(UserIdentifier::Id(Id::new("u1".to_string()))));
    let name = IdentifierModel { id: None, name: Some("Ada".to_string()) };
    assert_eq!(name.try_into(), Ok(UserIdentifier::Name("Ada".to_string())));
    let neither = IdentifierModel { id: None, name: None };
    assert_eq!(
        neither.try_into(),
        Err(paper::graphql::Error::invalid_input(Some("Invalid UserIdentifier".to_string())))
    );
    assert_eq!(
        UpdateModel { name: Some("Bo".to_string()) }.into(),
        UpdateUserInput { name: Some("Bo".to_string()) }
    );
}

#[test]
fn a_window_needs_exactly_one_of_first_and_last() {
    let cursor = |id: &str| Some(PaperCursor { id: Id::new(id.to_string()) });
    assert_eq!(
        UserModel::papers(Some(2), cursor("a"), Some(10), cursor("b"), None),
        Ok(Pagination::After { after: Some(Id::new("a".to_string())), skip: Some(2), first: 10 })
    );
    assert_eq!(
        UserModel::papers(None, cursor("a"), None, cursor("b"), Some(5)),
        Ok(Pagination::Before { before: Some(Id::new("b".to_string())), skip: None, last: 5 })
    );
    assert_eq!(
        UserModel::papers(None, None, Some(0), None, None),
        Ok(Pagination::After { after: None, skip: None, first: 0 })
    );
    let invalid = paper::graphql::Error::invalid_input(Some(
        "Exactly one of first and last is required, not negative".to_string(),
    ));
    assert_eq!(UserModel::papers(None, None, None, None, None), Err(invalid.clone()));
    assert_eq!(UserModel::papers(None, None, Some(1), None, Some(1)), Err(invalid.clone()));
    assert_eq!(UserModel::papers(None, None, Some(-1), None, None), Err(invalid.clone()));
    assert_eq!(UserModel::papers(None, None, None, None, Some(-5)), Err(invalid.clone()));
    assert_eq!(UserModel::papers(Some(-1), None, Some(1), None, None), Err(invalid));
}

#[test]
fn a_user_as_clients_see_it() {
    let model = UserModel::from(User {
        id: Id::new("u1".to_string()),
        created_at: 1600000000000,
        name: "Ada".to_string(),
        github_user: None,
        google_user: None,
    });
    assert_eq!(model.id(), "u1");
    assert_eq!(model.created_at(), "1600000000000");
    assert_eq!(model.name(), "Ada");
    let found: Result<User, Error> = Ok(model.0.clone());
    assert_eq!(UserModel::can_viewer_read_user(found.clone()), Ok(true));
    assert_eq!(UserModel::can_viewer_write_user(Err(Error::forbidden(None))), Ok(false));
    assert_eq!(
        UserModel::can_viewer_administer_user(Err(Error::not_found(None))),
        Err(paper::graphql::Error {
            kind: paper::graphql::ErrorKind::NotFound,
            message: None
        })
    );
    assert_eq!(answer_of(found), Ok(true));
}

#[test]
fn a_paper_as_clients_see_it() {
    let model = PaperModel::from(paper("n1", "u1"));
    assert_eq!(model.id(), "n1");
    assert_eq!(model.created_at(), "1600000000000");
    assert_eq!(model.updated_at(), "1600000000001");
    assert_eq!(model.title(), Some(&"Notes".to_string()));
    assert_eq!(PaperModel::can_viewer_write_paper(Ok(1)), Ok(true));
    assert_eq!(PaperModel::_can_viewer_write_paper::<u8>(Err(Error::forbidden(None))), Ok(false));
    assert_eq!(
        PaperModel::can_viewer_write_paper::<u8>(Err(Error::unavailable(None))).unwrap_err().kind,
        paper::graphql::ErrorKind::Unavailable
    );
    assert_eq!(DeletePaperPayload::from(paper("n1", "u1")).id(), "n1");
    let edge = PaperEdge::from(paper("n1", "u1"));
    assert_eq!(edge.node(), PaperModel(paper("n1", "u1")));
    assert_eq!(edge.cursor(), PaperCursor { id: Id::new("n1".to_string()) });
}

#[test]
fn orders_turn_into_the_core() {
    assert_eq!(paper::graphql::OrderDirection::Asc.into(), OrderDirection::Asc);
    assert_eq!(paper::graphql::OrderDirection::Desc.into(), OrderDirection::Desc);
    let order =
        PaperOrder { field: FieldModel::UpdatedAt, direction: paper::graphql::OrderDirection::Desc };
    assert_eq!(
        order.into(),
        OrderBy { field: PaperOrderField::UpdatedAt, direction: OrderDirection::Desc }
    );
    assert_eq!(
        paper_order_to_str(OrderBy { field: PaperOrderField::Id, direction: OrderDirection::Asc }),
        OrderBy { field: "_id", direction: OrderDirection::Asc }
    );
    assert_eq!(
        paper_order_to_str(OrderBy {
            field: PaperOrderField::UpdatedAt,
            direction: OrderDirection::Desc
        }),
        OrderBy { field: "updated_at", direction: OrderDirection::Desc }
    );
}

fn owner(id: &str) -> User {
    User {
        id: Id::new(id.to_string()),
        created_at: 1,
        name: "Ada".to_string(),
        github_user: None,
        google_user: None,
    }
}

#[test]
fn a_connection_defaults_to_id_ascending_without_deleted() {
    let viewer = Id::new("u1".to_string());
    let (filter, step) = PaperConnection::new(
        &viewer,
        Ok(owner("u1")),
        Pagination::After { after: Some(Id::new("c".to_string())), skip: None, first: 3 },
        None,
        None,
    )
    .unwrap();
    assert_eq!(filter, PaperFilter { user_id: "u1".to_string(), deleted: false });
    match step {
        PageStep::Ask(PageQuery::Listing { .. }, StoreRequest::Rows { bound, sort, limit, .. }) => {
            assert_eq!(
                bound,
                KeysetBound::Id { op: paper::keyset::KeysetOp::Greater, id: "c".to_string() }
            );
            assert_eq!(sort.len(), 1);
            assert_eq!(limit, 4);
        }
        other => panic!("unexpected step {:?}", other),
    }
    let (filter, step) = PaperConnection::new(
        &viewer,
        Ok(owner("u1")),
        Pagination::After { after: Some(Id::new("c".to_string())), skip: None, first: 3 },
        Some(PaperOrder {
            field: FieldModel::UpdatedAt,
            direction: paper::graphql::OrderDirection::Asc,
        }),
        Some(true),
    )
    .unwrap();
    assert!(filter.deleted);
    assert!(matches!(step, PageStep::Ask(PageQuery::Resolving { .. }, _)));
}

#[test]
fn a_connection_is_for_the_owner_alone() {
    let refused = PaperConnection::new(
        &Id::new("w".to_string()),
        Ok(owner("u1")),
        Pagination::After { after: None, skip: None, first: 3 },
        None,
        None,
    );
    assert_eq!(
        refused.unwrap_err(),
        paper::graphql::Error::forbidden(Some(
            "You are not allowed to read this user".to_string()
        ))
    );
    assert_eq!(
        PaperConnectionKind::User { user_id: Id::new("u1".to_string()) }.owner(),
        UserIdentifier::Id(Id::new("u1".to_string()))
    );
}

#[test]
fn the_field_that_identifies_a_user() {
    assert_eq!(UserIdentifier::Id(Id::new("u".to_string())).field(), "_id");
    assert_eq!(UserIdentifier::Name("Ada".to_string()).field(), "name");
    assert_eq!(UserIdentifier::GithubUserId(1).field(), "github_user.id");
    assert_eq!(UserIdentifier::GoogleUserId("g".to_string()).field(), "google_user.id");
}

#[test]
fn a_cursor_stands_in_a_url() {
    for key in ["", "a", "ab", "abc", "5f8d0d55b54764421b7156c3", "\u{ff}\u{3fff}?>~"] {
        let text = try_encode_key(key).unwrap();
        assert!(text
            .chars()
            .all(|c| c.is_ascii_alphanumeric() || c == '-' || c == '_' || c == '='));
    }
    assert_eq!(try_encode_key("??>"), Some("eyJpZCI6Ij8_PiJ9".to_string()));
}

#[test]
fn a_connection_as_clients_see_it() {
    let connection = PaperConnection(PaginationList {
        list: vec![paper("n1", "u"), paper("n2", "u"), paper("n3", "u")],
        total: 12,
        has_next_page: true,
    });
    assert_eq!(connection.total(), 12);
    let nodes = connection.nodes();
    assert_eq!(nodes.iter().map(|n| n.id()).collect::<Vec<_>>(), vec!["n1", "n2", "n3"]);
    let edges = connection.edges();
    assert_eq!(edges.len(), 3);
    assert_eq!(edges[2].cursor().id.as_str(), "n3");
    assert_eq!(
        connection.page_info(),
        PageInfo {
            start_cursor: try_encode_key("n1"),
            end_cursor: try_encode_key("n3"),
            has_next_page: true,
        }
    );
    let empty = PaperConnection(PaginationList { list: vec![], total: 0, has_next_page: false });
    assert_eq!(
        empty.page_info(),
        PageInfo { start_cursor: None, end_cursor: None, has_next_page: false }
    );
    assert!(empty.edges().is_empty());
}

#[test]
fn a_total_beyond_32_bits_wraps() {
    let total = |n: u64| {
        PaperConnection(PaginationList { list: vec![], total: n, has_next_page: false }).total()
    };
    assert_eq!(total(i32::MAX as u64), i32::MAX);
    assert_eq!(total(i32::MAX as u64 + 1), i32::MIN);
    assert_eq!(total(u32::MAX as u64), -1);
    assert_eq!(total(1 << 32), 0);
    assert_eq!(total(u64::MAX), -1);
}

#[test]
fn a_user_is_made_of_a_profile() {
    let profile = r#"{"id":42,"name":"Ada","login":"ada"}"#.to_string();
    let made = UserServiceImpl::create_user(
        CreateUserInput::Github { github_user: profile.clone() },
        "u1".to_string(),
        99,
    )
    .unwrap();
    assert_eq!(
        made,
        User {
            id: Id::new("u1".to_string()),
            created_at: 99,
            name: "Ada".to_string(),
            github_user: Some(profile),
            google_user: None,
        }
    );
    let google = UserServiceImpl::create_user(
        CreateUserInput::Google { google_user: r#"{"id":"g","name":"Bo"}"#.to_string() },
        "u2".to_string(),
        5,
    )
    .unwrap();
    assert_eq!(google.name, "Bo");
    assert!(google.github_user.is_none() && google.google_user.is_some());
    assert_eq!(
        UserServiceImpl::create_user(
            CreateUserInput::Github { github_user: r#"{"id":42,"name":7}"#.to_string() },
            "u1".to_string(),
            99
        ),
        Err(Error::unknown(Some("Invalid github user name".to_string())))
    );
    assert_eq!(
        UserServiceImpl::create_user(
            CreateUserInput::Google { google_user: "{}".to_string() },
            "u1".to_string(),
            99
        ),
        Err(Error::unknown(Some("Invalid google user name".to_string())))
    );
}

#[test]
fn only_the_user_updates_itself() {
    let v = Id::new("v".to_string());
    let w = Id::new("w".to_string());
    assert_eq!(
        UserServiceImpl::update_user(&v, &v, UpdateUserInput { name: Some("Bo".to_string()) }),
        Ok(UserUpdate::SetName("Bo".to_string()))
    );
    assert_eq!(
        UserServiceImpl::update_user(&v, &v, UpdateUserInput { name: None }),
        Ok(UserUpdate::Unchanged)
    );
    assert_eq!(
        UserServiceImpl::update_user(&w, &v, UpdateUserInput { name: Some("Bo".to_string()) }),
        Err(Error::forbidden(None))
    );
}

#[test]
fn what_is_not_found() {
    let missing = Err(Error::not_found(Some("User not found".to_string())));
    assert_eq!(UserServiceImpl::find_user(None), missing);
    assert_eq!(UserServiceImpl::select_user(None), missing);
    assert_eq!(UserServiceImpl::updated_user(None), missing);
}

#[test]
fn a_paper_is_made_by_its_owner() {
    let viewer = Id::new("u1".to_string());
    let made =
        PaperServiceImpl::create_paper(&viewer, Ok(owner("u1")), "n9".to_string(), 1234).unwrap();
    assert_eq!(
        made,
        Paper {
            id: Id::new("n9".to_string()),
            user_id: Id::new("u1".to_string()),
            created_at: 1234,
            updated_at: 1234,
            deleted_at: None,
            title: None,
        }
    );
    assert_eq!(
        PaperServiceImpl::create_paper(
            &Id::new("w".to_string()),
            Ok(owner("u1")),
            "n9".to_string(),
            1234
        ),
        Err(Error::forbidden(Some("You are not allowed to write this user".to_string())))
    );
    let gone = Error::not_found(Some("User not found".to_string()));
    assert_eq!(
        PaperServiceImpl::create_paper(&viewer, Err(gone.clone()), "n9".to_string(), 1234),
        Err(gone)
    );
}

#[test]
fn a_paper_is_deleted_by_its_owner() {
    let viewer = Id::new("u1".to_string());
    let made =
        PaperServiceImpl::create_paper(&viewer, Ok(owner("u1")), "n9".to_string(), 1234).unwrap();
    let deletion = PaperServiceImpl::delete_paper(
        &viewer,
        Ok(owner("u1")),
        &made.id,
        Ok(Some(made.clone())),
        5678,
    )
    .unwrap();
    assert_eq!((deletion.paper_id.as_str(), deletion.deleted_at), ("n9", 5678));
    assert_eq!(
        PaperServiceImpl::delete_paper(
            &Id::new("w".to_string()),
            Ok(owner("u1")),
            &made.id,
            Ok(Some(made.clone())),
            5678
        )
        .unwrap_err(),
        Error::forbidden(Some("You are not allowed to write this user".to_string()))
    );
    assert_eq!(
        PaperServiceImpl::delete_paper(&viewer, Ok(owner("u1")), &made.id, Ok(None), 5678)
            .unwrap_err(),
        Error::not_found(Some("Paper not found".to_string()))
    );
    let live = PaperFilter { user_id: "u1".to_string(), deleted: false };
    let gone = PaperFilter { user_id: "u1".to_string(), deleted: true };
    assert!(live.selects(&made) && !gone.selects(&made));
    let deleted = Paper { deleted_at: Some(5678), ..made.clone() };
    assert!(!live.selects(&deleted) && gone.selects(&deleted));
    assert!(!PaperFilter { user_id: "u2".to_string(), deleted: false }.selects(&made));
}

#[test]
fn a_log_line() {
    assert!(Logger.enabled());
    assert_eq!(Logger.line(LogLevelFilter::Info, "started"), "INFO: started");
    assert_eq!(Logger.line(LogLevelFilter::Error, ""), "ERROR: ");
}

#[test]
fn services_of_a_configuration() {
    let token = |n: u64, s: &str| ConfigAccessToken { expires_in_sec: n, secret: s.to_string() };
    let config = Config {
        address: "127.0.0.1".to_string(),
        port: 8080,
        cors: false,
        log_level: LogLevelFilter::Info,
        access_token: token(60, "a"),
        refresh_token: token(600, "r"),
        paper_token: token(30, "p"),
        storage: ConfigStorage {
            uri: "mongodb://localhost".to_string(),
            database: "paper".to_string(),
            collection_user: "user".to_string(),
            collection_paper: "paper".to_string(),
            collection_paper_content: "paper_content".to_string(),
        },
        github_auth: vec![ConfigGithubAuth {
            client_id: "gh".to_string(),
            client_secret: "ghs".to_string(),
        }],
        google_auth: vec![
            ConfigGoogleAuth {
                client_id: "g1".to_string(),
                client_secret: "gs1".to_string(),
                redirect_uri: "u1".to_string(),
            },
            ConfigGoogleAuth {
                client_id: "g2".to_string(),
                client_secret: "gs2".to_string(),
                redirect_uri: "u2".to_string(),
            },
        ],
    };
    let service = config.auth_service();
    assert_eq!(service.access_token_config.expires_in_sec, 60);
    assert_eq!(service.access_token_config.secret, "a");
    assert_eq!(service.refresh_token_config.expires_in_sec, 600);
    assert_eq!(service.refresh_token_config.secret, "r");
    assert_eq!(service.github_auth_config.list.len(), 1);
    assert_eq!(service.github_auth_config.list[0].client_secret, "ghs");
    assert_eq!(service.google_auth_config.list.len(), 2);
    assert_eq!(service.google_auth_config.list[1].client_id, "g2");
    assert_eq!(service.google_auth_config.list[1].redirect_uri, "u2");
    let paper = config.paper_token_config();
    assert_eq!((paper.expires_in_sec, paper.secret.as_str()), (30, "p"));
}
