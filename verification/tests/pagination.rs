use paper::keyset::{
    KeysetBound, KeysetOp, PageQuery, PageStep, SortKey, StoreReply, StoreRequest,
};
use paper::paper::{Paper, PaperId, PaperOrderField};
use paper::paper_service::{PaperFilter, PaperServiceImpl};
use paper::user::{User, UserId};
use paper::{Error, ErrorKind, Id, OrderBy, OrderDirection, Pagination, PaginationList};

fn user(id: &str) -> User {
    User {
        id: Id::new(id.to_string()),
        created_at: 1,
        name: "Ada".to_string(),
        github_user: None,
        google_user: None,
    }
}

fn paper(id: &str, owner: &str, updated_at: u64, deleted_at: Option<u64>) -> Paper {
    Paper {
        id: Id::new(id.to_string()),
        user_id: Id::new(owner.to_string()),
        created_at: 1,
        updated_at,
        deleted_at,
        title: None,
    }
}

fn within(bound: &KeysetBound, row: &Paper) -> bool {
    let id = row.id.as_str();
    match bound {
        KeysetBound::Unbounded => true,
        KeysetBound::Id { op: KeysetOp::Greater, id: c } => id > c.as_str(),
        KeysetBound::Id { op: KeysetOp::Less, id: c } => id < c.as_str(),
        KeysetBound::FieldThenId { op: KeysetOp::Greater, value, id: c, .. } => {
            row.updated_at > *value || (row.updated_at == *value && id > c.as_str())
        }
        KeysetBound::FieldThenId { op: KeysetOp::Less, value, id: c, .. } => {
            row.updated_at < *value || (row.updated_at == *value && id < c.as_str())
        }
    }
}

fn key(sort: &[SortKey], row: &Paper) -> Vec<(u64, String)> {
    sort.iter()
        .map(|k| match k.field.as_str() {
            "_id" => (0, row.id.to_string()),
            "updated_at" => (row.updated_at, String::new()),
            other => panic!("unknown sort field {}", other),
        })
        .collect()
}

/// A store in memory that filters, sorts, skips and limits.
fn reply(all: &[Paper], filter: &PaperFilter, request: &StoreRequest) -> StoreReply<Paper> {
    match request {
        StoreRequest::FieldOfRow { id, field } => {
            assert_eq!(field, "updated_at");
            StoreReply::Field(all.iter().find(|p| p.id.as_str() == id).map(|p| p.updated_at))
        }
        StoreRequest::Rows { bound, sort, skip, limit } => {
            let mut rows: Vec<Paper> =
                all.iter().filter(|p| filter.selects(p) && within(bound, p)).cloned().collect();
            rows.sort_by(|a, b| key(sort, a).cmp(&key(sort, b)));
            if !sort[0].ascending {
                rows.reverse();
            }
            let rows = rows
                .into_iter()
                .skip(skip.unwrap_or(0) as usize)
                .take(*limit as usize)
                .collect();
            StoreReply::Rows(rows)
        }
        StoreRequest::Count => {
            StoreReply::Count(all.iter().filter(|p| filter.selects(p)).count() as u64)
        }
    }
}

fn list(
    all: &[Paper],
    owner: &str,
    pagination: Pagination<PaperId>,
    field: PaperOrderField,
    direction: OrderDirection,
    deleted: bool,
) -> Result<PaginationList<Paper>, Error> {
    let viewer: UserId = Id::new(owner.to_string());
    let (filter, mut step) = PaperServiceImpl::select_paper_page_of_repository(
        &viewer,
        Ok(user(owner)),
        pagination,
        OrderBy { field, direction },
        deleted,
    )?;
    loop {
        match step {
            PageStep::Ask(query, request) => step = query.advance(reply(all, &filter, &request)),
            PageStep::Finished(result) => return result,
        }
    }
}

fn ids(page: &PaginationList<Paper>) -> Vec<String> {
    page.list.iter().map(|p| p.id.to_string()).collect()
}

fn after(cursor: Option<&str>, first: u64) -> Pagination<PaperId> {
    Pagination::After { after: cursor.map(|c| Id::new(c.to_string())), skip: None, first }
}

fn before(cursor: Option<&str>, last: u64) -> Pagination<PaperId> {
    Pagination::Before { before: cursor.map(|c| Id::new(c.to_string())), skip: None, last }
}

fn three() -> Vec<Paper> {
    vec![paper("C", "u", 200, None), paper("A", "u", 100, None), paper("B", "u", 100, None)]
}

fn seven() -> Vec<Paper> {
    vec![
        paper("n4", "u", 30, None),
        paper("n1", "u", 10, None),
        paper("n7", "u", 10, None),
        paper("n2", "u", 20, None),
        paper("n6", "u", 20, None),
        paper("n3", "u", 20, None),
        paper("n5", "u", 50, None),
        paper("x1", "other", 15, None),
        paper("d1", "u", 25, Some(99)),
    ]
}

#[test]
fn ties_are_broken_by_id() {
    let all = three();
    let first =
        list(&all, "u", after(None, 2), PaperOrderField::UpdatedAt, OrderDirection::Asc, false)
            .unwrap();
    assert_eq!(ids(&first), vec!["A", "B"]);
    assert!(first.has_next_page);
    assert_eq!(first.total, 3);
    let second =
        list(&all, "u", after(Some("B"), 2), PaperOrderField::UpdatedAt, OrderDirection::Asc, false)
            .unwrap();
    assert_eq!(ids(&second), vec!["C"]);
    assert!(!second.has_next_page);
    assert_eq!(second.total, 3);
}

fn sorted(field: PaperOrderField, direction: OrderDirection) -> Vec<String> {
    let mut rows: Vec<Paper> =
        seven().into_iter().filter(|p| p.user_id.as_str() == "u" && p.deleted_at.is_none()).collect();
    rows.sort_by(|a, b| match field {
        PaperOrderField::Id => a.id.as_str().cmp(b.id.as_str()),
        PaperOrderField::UpdatedAt => {
            (a.updated_at, a.id.as_str()).cmp(&(b.updated_at, b.id.as_str()))
        }
    });
    if direction == OrderDirection::Desc {
        rows.reverse();
    }
    rows.iter().map(|p| p.id.to_string()).collect()
}

fn forward_pages(field: PaperOrderField, direction: OrderDirection, size: u64) -> Vec<String> {
    let all = seven();
    let mut seen: Vec<String> = Vec::new();
    let mut cursor: Option<String> = None;
    for _ in 0..20 {
        let page = list(&all, "u", after(cursor.as_deref(), size), field, direction, false).unwrap();
        assert!(page.list.len() as u64 <= size);
        assert_eq!(page.total, 7);
        seen.extend(ids(&page));
        if !page.has_next_page {
            return seen;
        }
        cursor = Some(page.list.last().unwrap().id.to_string());
    }
    panic!("pagination did not end");
}

#[test]
fn forward_pages_cover_the_order_by_id() {
    for size in 1..=8 {
        assert_eq!(
            forward_pages(PaperOrderField::Id, OrderDirection::Asc, size),
            sorted(PaperOrderField::Id, OrderDirection::Asc)
        );
        assert_eq!(
            forward_pages(PaperOrderField::Id, OrderDirection::Desc, size),
            sorted(PaperOrderField::Id, OrderDirection::Desc)
        );
    }
}

#[test]
fn forward_pages_cover_the_order_by_updated_at() {
    assert_eq!(
        sorted(PaperOrderField::UpdatedAt, OrderDirection::Asc),
        vec!["n1", "n7", "n2", "n3", "n6", "n4", "n5"]
    );
    for size in 1..=8 {
        assert_eq!(
            forward_pages(PaperOrderField::UpdatedAt, OrderDirection::Asc, size),
            sorted(PaperOrderField::UpdatedAt, OrderDirection::Asc)
        );
        assert_eq!(
            forward_pages(PaperOrderField::UpdatedAt, OrderDirection::Desc, size),
            sorted(PaperOrderField::UpdatedAt, OrderDirection::Desc)
        );
    }
}

#[test]
fn the_same_page_twice_without_writes() {
    let all = seven();
    let one =
        list(&all, "u", after(Some("n2"), 3), PaperOrderField::UpdatedAt, OrderDirection::Asc, false);
    let two =
        list(&all, "u", after(Some("n2"), 3), PaperOrderField::UpdatedAt, OrderDirection::Asc, false);
    assert_eq!(one, two);
    assert_eq!(ids(&one.unwrap()), vec!["n3", "n6", "n4"]);
}

#[test]
fn total_ignores_the_window() {
    let all = seven();
    for pagination in [
        after(None, 0),
        after(None, 100),
        after(Some("n6"), 1),
        before(Some("n2"), 2),
        Pagination::After { after: None, skip: Some(5), first: 1 },
    ] {
        let page =
            list(&all, "u", pagination, PaperOrderField::Id, OrderDirection::Asc, false).unwrap();
        assert_eq!(page.total, 7);
    }
    let deleted =
        list(&all, "u", after(None, 10), PaperOrderField::Id, OrderDirection::Asc, true).unwrap();
    assert_eq!(deleted.total, 1);
    let other =
        list(&all, "other", after(None, 10), PaperOrderField::Id, OrderDirection::Asc, false)
            .unwrap();
    assert_eq!(other.total, 1);
}

#[test]
fn backward_page_ends_before_the_cursor_in_display_order() {
    let all = seven();
    let page =
        list(&all, "u", before(Some("n6"), 2), PaperOrderField::Id, OrderDirection::Asc, false)
            .unwrap();
    assert_eq!(ids(&page), vec!["n4", "n5"]);
    assert!(page.has_next_page);
    let start =
        list(&all, "u", before(Some("n3"), 5), PaperOrderField::Id, OrderDirection::Asc, false)
            .unwrap();
    assert_eq!(ids(&start), vec!["n1", "n2"]);
    assert!(!start.has_next_page);
}

#[test]
fn backward_page_without_cursor_is_the_end() {
    let all = seven();
    let asc = list(&all, "u", before(None, 2), PaperOrderField::Id, OrderDirection::Asc, false)
        .unwrap();
    assert_eq!(ids(&asc), vec!["n6", "n7"]);
    assert!(asc.has_next_page);
    let desc =
        list(&all, "u", before(None, 3), PaperOrderField::UpdatedAt, OrderDirection::Desc, false)
            .unwrap();
    assert_eq!(ids(&desc), vec!["n2", "n7", "n1"]);
    assert!(desc.has_next_page);
}

#[test]
fn backward_page_by_updated_at() {
    let all = seven();
    let page = list(
        &all,
        "u",
        before(Some("n6"), 2),
        PaperOrderField::UpdatedAt,
        OrderDirection::Asc,
        false,
    )
    .unwrap();
    assert_eq!(ids(&page), vec!["n2", "n3"]);
    assert!(page.has_next_page);
}

#[test]
fn skip_offsets_past_the_cursor() {
    let all = seven();
    let page = list(
        &all,
        "u",
        Pagination::After { after: Some(Id::new("n2".to_string())), skip: Some(2), first: 2 },
        PaperOrderField::Id,
        OrderDirection::Asc,
        false,
    )
    .unwrap();
    assert_eq!(ids(&page), vec!["n5", "n6"]);
    assert!(page.has_next_page);
}

#[test]
fn deleted_papers_are_listed_only_when_asked_for() {
    let all = seven();
    let live = list(&all, "u", after(None, 100), PaperOrderField::Id, OrderDirection::Asc, false)
        .unwrap();
    assert!(!ids(&live).contains(&"d1".to_string()));
    let deleted =
        list(&all, "u", after(None, 100), PaperOrderField::Id, OrderDirection::Asc, true).unwrap();
    assert_eq!(ids(&deleted), vec!["d1"]);
}

#[test]
fn a_cursor_whose_row_is_gone_starts_from_the_beginning() {
    let all = seven();
    let page = list(
        &all,
        "u",
        after(Some("gone"), 2),
        PaperOrderField::UpdatedAt,
        OrderDirection::Asc,
        false,
    )
    .unwrap();
    assert_eq!(ids(&page), vec!["n1", "n7"]);
}

#[test]
fn a_cursor_under_a_sort_by_id_needs_no_row() {
    let all = seven();
    let page =
        list(&all, "u", after(Some("n35"), 2), PaperOrderField::Id, OrderDirection::Asc, false)
            .unwrap();
    assert_eq!(ids(&page), vec!["n4", "n5"]);
}

#[test]
fn page_of_size_zero_is_empty() {
    let all = seven();
    let page =
        list(&all, "u", after(None, 0), PaperOrderField::Id, OrderDirection::Asc, false).unwrap();
    assert!(page.list.is_empty());
    assert!(page.has_next_page);
}

#[test]
fn window_out_of_range_is_invalid_input() {
    let all = seven();
    let too_large = list(
        &all,
        "u",
        after(None, i64::MAX as u64),
        PaperOrderField::Id,
        OrderDirection::Asc,
        false,
    );
    assert_eq!(
        too_large,
        Err(Error::invalid_input(Some("Pagination window is out of range".to_string())))
    );
    let skip = list(
        &all,
        "u",
        Pagination::Before { before: None, skip: Some(u64::MAX), last: 1 },
        PaperOrderField::Id,
        OrderDirection::Asc,
        false,
    );
    assert_eq!(skip.unwrap_err().kind, ErrorKind::InvalidInput);
    let largest = list(
        &all,
        "u",
        Pagination::After { after: None, skip: Some(i64::MAX as u64), first: i64::MAX as u64 - 1 },
        PaperOrderField::Id,
        OrderDirection::Asc,
        false,
    );
    assert!(largest.is_ok());
}

fn begin(
    pagination: Pagination<PaperId>,
    field: &'static str,
    direction: OrderDirection,
) -> PageStep<Paper> {
    PageQuery::begin(pagination, OrderBy { field, direction })
}

fn sort_key(field: &str, ascending: bool) -> SortKey {
    SortKey { field: field.to_string(), ascending }
}

#[test]
fn the_four_cases_come_to_two_comparisons() {
    let cases = [
        (after(Some("c"), 5), OrderDirection::Asc, true, KeysetOp::Greater),
        (before(Some("c"), 5), OrderDirection::Desc, true, KeysetOp::Greater),
        (after(Some("c"), 5), OrderDirection::Desc, false, KeysetOp::Less),
        (before(Some("c"), 5), OrderDirection::Asc, false, KeysetOp::Less),
    ];
    for (pagination, direction, ascending, op) in cases {
        match begin(pagination, "_id", direction) {
            PageStep::Ask(PageQuery::Listing { .. }, request) => assert_eq!(
                request,
                StoreRequest::Rows {
                    bound: KeysetBound::Id { op, id: "c".to_string() },
                    sort: vec![sort_key("_id", ascending)],
                    skip: None,
                    limit: 6,
                }
            ),
            other => panic!("unexpected step {:?}", other),
        }
    }
}

#[test]
fn a_sort_by_another_field_resolves_the_cursor_first() {
    let step = begin(
        Pagination::After { after: Some(Id::new("c".to_string())), skip: Some(3), first: 10 },
        "updated_at",
        OrderDirection::Asc,
    );
    let query = match step {
        PageStep::Ask(query, request) => {
            assert_eq!(
                request,
                StoreRequest::FieldOfRow { id: "c".to_string(), field: "updated_at".to_string() }
            );
            query
        }
        other => panic!("unexpected step {:?}", other),
    };
    match query.advance(StoreReply::Field(Some(42))) {
        PageStep::Ask(PageQuery::Listing { .. }, request) => assert_eq!(
            request,
            StoreRequest::Rows {
                bound: KeysetBound::FieldThenId {
                    op: KeysetOp::Greater,
                    field: "updated_at".to_string(),
                    value: 42,
                    id: "c".to_string(),
                },
                sort: vec![sort_key("updated_at", true), sort_key("_id", true)],
                skip: Some(3),
                limit: 11,
            }
        ),
        other => panic!("unexpected step {:?}", other),
    }
}

#[test]
fn without_a_cursor_nothing_bounds_the_rows() {
    match begin(after(None, 1), "updated_at", OrderDirection::Desc) {
        PageStep::Ask(PageQuery::Listing { .. }, request) => assert_eq!(
            request,
            StoreRequest::Rows {
                bound: KeysetBound::Unbounded,
                sort: vec![sort_key("updated_at", false), sort_key("_id", false)],
                skip: None,
                limit: 2,
            }
        ),
        other => panic!("unexpected step {:?}", other),
    }
}

#[test]
fn a_failure_of_the_store_is_unavailable() {
    let step = begin(after(None, 1), "_id", OrderDirection::Asc);
    let query = match step {
        PageStep::Ask(query, _) => query,
        other => panic!("unexpected step {:?}", other),
    };
    assert_eq!(
        query.advance(StoreReply::Failed("connection reset".to_string())),
        PageStep::Finished(Err(Error::unavailable(Some("connection reset".to_string()))))
    );
}

#[test]
fn an_unexpected_reply_is_unknown() {
    let step = begin(after(None, 1), "_id", OrderDirection::Asc);
    let query = match step {
        PageStep::Ask(query, _) => query,
        other => panic!("unexpected step {:?}", other),
    };
    assert_eq!(
        query.advance(StoreReply::Count(3)),
        PageStep::Finished(Err(Error::unknown(Some(
            "Unexpected reply from the store".to_string()
        ))))
    );
}

#[test]
fn a_page_is_cut_to_its_size_whatever_the_store_returns() {
    let step = begin(before(None, 2), "_id", OrderDirection::Asc);
    let query = match step {
        PageStep::Ask(query, _) => query,
        other => panic!("unexpected step {:?}", other),
    };
    let rows = vec![
        paper("e", "u", 1, None),
        paper("d", "u", 1, None),
        paper("c", "u", 1, None),
        paper("b", "u", 1, None),
    ];
    let query = match query.advance(StoreReply::Rows(rows)) {
        PageStep::Ask(query, request) => {
            assert_eq!(request, StoreRequest::Count);
            query
        }
        other => panic!("unexpected step {:?}", other),
    };
    match query.advance(StoreReply::Count(9)) {
        PageStep::Finished(Ok(page)) => {
            assert_eq!(ids(&page), vec!["d", "e"]);
            assert!(page.has_next_page);
            assert_eq!(page.total, 9);
        }
        other => panic!("unexpected step {:?}", other),
    }
}

#[test]
fn listing_as_another_viewer_is_forbidden() {
    let viewer: UserId = Id::new("w".to_string());
    let refused = PaperServiceImpl::select_paper_page_of_repository(
        &viewer,
        Ok(user("u")),
        after(None, 2),
        OrderBy { field: PaperOrderField::Id, direction: OrderDirection::Asc },
        false,
    );
    assert_eq!(
        refused.unwrap_err(),
        Error::forbidden(Some("You are not allowed to read this user".to_string()))
    );
    let missing = PaperServiceImpl::select_paper_page_of_repository(
        &viewer,
        Err(Error::not_found(Some("User not found".to_string()))),
        after(None, 2),
        OrderBy { field: PaperOrderField::Id, direction: OrderDirection::Asc },
        false,
    );
    assert_eq!(missing.unwrap_err().kind, ErrorKind::NotFound);
}

#[test]
fn a_cursor_that_the_filter_leaves_out_still_marks_a_position() {
    let all = seven();
    let by_id =
        list(&all, "u", after(Some("d1"), 2), PaperOrderField::Id, OrderDirection::Asc, false)
            .unwrap();
    assert_eq!(ids(&by_id), vec!["n1", "n2"]);
    let by_time = list(
        &all,
        "u",
        after(Some("d1"), 2),
        PaperOrderField::UpdatedAt,
        OrderDirection::Asc,
        false,
    )
    .unwrap();
    assert_eq!(ids(&by_time), vec!["n4", "n5"]);
    let other = list(
        &all,
        "u",
        after(Some("x1"), 3),
        PaperOrderField::UpdatedAt,
        OrderDirection::Desc,
        false,
    )
    .unwrap();
    assert_eq!(ids(&other), vec!["n7", "n1"]);
}
