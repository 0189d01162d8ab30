//! The keyset pagination engine.
//!
//! The store offers no cursors, only filter, sort, skip and limit. The engine
//! turns a window relative to a cursor into such queries and turns what the
//! store answers into a page. It does no I/O itself: it is a state machine
//! that hands out a [`StoreRequest`] and takes the [`StoreReply`] back.

use vstd::prelude::*;

use crate::id::Id;
use crate::pagination::{OrderBy, OrderDirection, Pagination, PaginationList};
use crate::result::{Error, ErrorKind, ErrorView};

verus! {

/// The view of an optional string.
pub open spec fn text_of(s: Option<String>) -> Option<Seq<char>> {
    match s {
        Some(t) => Some(t@),
        None => None,
    }
}

/// The name of the store's identity field.
pub open spec fn id_field() -> Seq<char> {
    "_id"@
}

/// The comparison of the cursor predicate.
#[derive(Debug, Clone, Copy, PartialEq, Eq, Structural)]
pub enum KeysetOp {
    /// Strictly greater than the cursor.
    Greater,
    /// Strictly less than the cursor.
    Less,
}

/// The cursor predicate: which rows lie beyond the cursor.
#[derive(Debug, PartialEq)]
pub enum KeysetBound {
    /// Every row.
    Unbounded,
    /// The rows whose id compares to `id` as `op` says.
    Id { op: KeysetOp, id: String },
    /// The rows whose `field` compares to `value` as `op` says, and those
    /// with the same `value` whose id compares to `id` as `op` says.
    FieldThenId { op: KeysetOp, field: String, value: u64, id: String },
}

/// A cursor predicate as contracts see it.
pub enum BoundView {
    Unbounded,
    Id { op: KeysetOp, id: Seq<char> },
    FieldThenId { op: KeysetOp, field: Seq<char>, value: u64, id: Seq<char> },
}

impl View for KeysetBound {
    type V = BoundView;

    open spec fn view(&self) -> BoundView {
        match *self {
            KeysetBound::Unbounded => BoundView::Unbounded,
            KeysetBound::Id { op, id } => BoundView::Id { op, id: id@ },
            KeysetBound::FieldThenId { op, field, value, id } => BoundView::FieldThenId {
                op,
                field: field@,
                value,
                id: id@,
            },
        }
    }
}

/// One key of a sort: a field, and whether it ascends.
#[derive(Debug, PartialEq)]
pub struct SortKey {
    pub field: String,
    pub ascending: bool,
}

/// A key of a sort as contracts see it.
pub struct SortKeyView {
    pub field: Seq<char>,
    pub ascending: bool,
}

impl View for SortKey {
    type V = SortKeyView;

    open spec fn view(&self) -> SortKeyView {
        SortKeyView { field: self.field@, ascending: self.ascending }
    }
}

/// What the engine asks of the store.
#[derive(Debug, PartialEq)]
pub enum StoreRequest {
    /// The value of `field` in the row whose id is `id`, among all rows.
    FieldOfRow { id: String, field: String },
    /// The rows that match the caller's filter and `bound`, sorted by
    /// `sort`, without the first `skip` of them, `limit` at most.
    Rows { bound: KeysetBound, sort: Vec<SortKey>, skip: Option<i64>, limit: i64 },
    /// How many rows match the caller's filter.
    Count,
}

/// A request to the store as contracts see it.
pub enum RequestView {
    FieldOfRow { id: Seq<char>, field: Seq<char> },
    Rows { bound: BoundView, sort: Seq<SortKeyView>, skip: Option<i64>, limit: i64 },
    Count,
}

impl View for StoreRequest {
    type V = RequestView;

    open spec fn view(&self) -> RequestView {
        match *self {
            StoreRequest::FieldOfRow { id, field } => RequestView::FieldOfRow {
                id: id@,
                field: field@,
            },
            StoreRequest::Rows { bound, sort, skip, limit } => RequestView::Rows {
                bound: bound@,
                sort: sort@.map_values(|k: SortKey| k@),
                skip,
                limit,
            },
            StoreRequest::Count => RequestView::Count,
        }
    }
}

/// What the store answers.
#[derive(Debug, PartialEq)]
pub enum StoreReply<T> {
    /// To [`StoreRequest::FieldOfRow`]: the value, or `None` where the row
    /// or the field is missing.
    Field(Option<u64>),
    /// To [`StoreRequest::Rows`].
    Rows(Vec<T>),
    /// To [`StoreRequest::Count`].
    Count(u64),
    /// To any request: the store failed, with its message.
    Failed(String),
}

/// An answer of the store as contracts see it.
pub enum ReplyView<T> {
    Field(Option<u64>),
    Rows(Seq<T>),
    Count(u64),
    Failed(Seq<char>),
}

impl<T> View for StoreReply<T> {
    type V = ReplyView<T>;

    open spec fn view(&self) -> ReplyView<T> {
        match *self {
            StoreReply::Field(v) => ReplyView::Field(v),
            StoreReply::Rows(rows) => ReplyView::Rows(rows@),
            StoreReply::Count(n) => ReplyView::Count(n),
            StoreReply::Failed(m) => ReplyView::Failed(m@),
        }
    }
}

/// A window as the engine reads it.
pub struct Window {
    pub before: bool,
    pub cursor: Option<Seq<char>>,
    pub skip: Option<u64>,
    pub size: u64,
}

/// The window that `pagination` asks for.
pub open spec fn window_of<E>(pagination: Pagination<Id<E>>) -> Window {
    Window {
        before: pagination is Before,
        cursor: match pagination.cursor() {
            Some(id) => Some(id@),
            None => None,
        },
        skip: pagination.offset(),
        size: pagination.size(),
    }
}

/// What the engine has settled before the first query.
#[derive(Debug, PartialEq)]
pub struct QueryPlan {
    /// The window ends before the cursor.
    pub before: bool,
    /// The store sorts ascending.
    pub ascending: bool,
    pub sort_field: String,
    pub cursor: Option<String>,
    pub skip: Option<i64>,
    /// The page size asked for.
    pub size: u64,
}

/// A plan as contracts see it.
pub struct PlanView {
    pub before: bool,
    pub ascending: bool,
    pub sort_field: Seq<char>,
    pub cursor: Option<Seq<char>>,
    pub skip: Option<i64>,
    pub size: u64,
}

impl View for QueryPlan {
    type V = PlanView;

    open spec fn view(&self) -> PlanView {
        PlanView {
            before: self.before,
            ascending: self.ascending,
            sort_field: self.sort_field@,
            cursor: text_of(self.cursor),
            skip: self.skip,
            size: self.size,
        }
    }
}

impl PlanView {
    /// The comparison that selects the rows beyond the cursor: greater where
    /// the store sorts ascending, less where it sorts descending.
    pub open spec fn op(self) -> KeysetOp {
        if self.ascending {
            KeysetOp::Greater
        } else {
            KeysetOp::Less
        }
    }

    /// The sort: the field, then the id to break ties.
    pub open spec fn sort(self) -> Seq<SortKeyView> {
        if self.sort_field == id_field() {
            seq![SortKeyView { field: id_field(), ascending: self.ascending }]
        } else {
            seq![
                SortKeyView { field: self.sort_field, ascending: self.ascending },
                SortKeyView { field: id_field(), ascending: self.ascending },
            ]
        }
    }

    /// One row more than the page, to see whether a next page exists.
    pub open spec fn limit(self) -> int {
        self.size + 1
    }

    /// The cursor's row has to be read first: the cursor holds an id only,
    /// and the sort is by another field.
    pub open spec fn resolves_cursor(self) -> bool {
        self.cursor is Some && self.sort_field != id_field()
    }

    /// The bound where the sort is by id, or no cursor is given.
    pub open spec fn direct_bound(self) -> BoundView {
        match self.cursor {
            Some(id) => BoundView::Id { op: self.op(), id },
            None => BoundView::Unbounded,
        }
    }

    /// The bound once the cursor's row was read. A cursor whose row is gone
    /// bounds nothing: the page starts at the beginning.
    pub open spec fn resolved_bound(self, value: Option<u64>) -> BoundView {
        match (self.cursor, value) {
            (Some(id), Some(value)) => BoundView::FieldThenId {
                op: self.op(),
                field: self.sort_field,
                value,
                id,
            },
            _ => BoundView::Unbounded,
        }
    }

    /// The request for the rows of the window behind `bound`.
    pub open spec fn rows_request(self, bound: BoundView) -> RequestView {
        RequestView::Rows {
            bound,
            sort: self.sort(),
            skip: self.skip,
            limit: self.limit() as i64,
        }
    }

    /// The request that the query begins with.
    pub open spec fn first_request(self) -> RequestView {
        if self.resolves_cursor() {
            RequestView::FieldOfRow { id: self.cursor->0, field: self.sort_field }
        } else {
            self.rows_request(self.direct_bound())
        }
    }
}

/// Whether the store sorts ascending: forward through an ascending order and
/// backward through a descending one do, the other two do not.
pub open spec fn sorts_ascending(before: bool, direction: OrderDirection) -> bool {
    before == (direction is Desc)
}

/// A window the store can be asked for: the skip and the page size plus one
/// fit the store's signed 64-bit numbers.
pub open spec fn admissible(window: Window) -> bool {
    &&& window.size < i64::MAX
    &&& window.skip matches Some(s) ==> s <= i64::MAX
}

/// The plan for `window` in the order of `field` and `direction`.
pub open spec fn plan_for(window: Window, field: Seq<char>, direction: OrderDirection) -> PlanView {
    PlanView {
        before: window.before,
        ascending: sorts_ascending(window.before, direction),
        sort_field: field,
        cursor: window.cursor,
        skip: match window.skip {
            Some(s) => Some(s as i64),
            None => None,
        },
        size: window.size,
    }
}

/// The page made of the rows that the store returned: without the rows past
/// the page size, and turned round where the window ends before the cursor,
/// since the store then walked away from the cursor.
pub open spec fn page_rows<T>(rows: Seq<T>, size: u64, before: bool) -> Seq<T> {
    let kept = if rows.len() > size {
        rows.take(size as int)
    } else {
        rows
    };
    if before {
        kept.reverse()
    } else {
        kept
    }
}

/// Where a page query stands: what was asked of the store last.
#[derive(Debug, PartialEq)]
pub enum PageQuery<T> {
    /// The value of the sort field in the cursor's row was asked for.
    Resolving { plan: QueryPlan },
    /// The rows of the window were asked for.
    Listing { plan: QueryPlan },
    /// The count was asked for; the page is made.
    Counting { plan: QueryPlan, list: Vec<T>, has_next_page: bool },
}

/// A page query as contracts see it.
pub enum QueryView<T> {
    Resolving { plan: PlanView },
    Listing { plan: PlanView },
    Counting { plan: PlanView, list: Seq<T>, has_next_page: bool },
}

impl<T> View for PageQuery<T> {
    type V = QueryView<T>;

    open spec fn view(&self) -> QueryView<T> {
        match *self {
            PageQuery::Resolving { plan } => QueryView::Resolving { plan: plan@ },
            PageQuery::Listing { plan } => QueryView::Listing { plan: plan@ },
            PageQuery::Counting { plan, list, has_next_page } => QueryView::Counting {
                plan: plan@,
                list: list@,
                has_next_page,
            },
        }
    }
}

/// A page as contracts see it.
pub struct PageView<T> {
    pub list: Seq<T>,
    pub total: u64,
    pub has_next_page: bool,
}

impl<T> View for PaginationList<T> {
    type V = PageView<T>;

    open spec fn view(&self) -> PageView<T> {
        PageView { list: self.list@, total: self.total, has_next_page: self.has_next_page }
    }
}

/// What comes of one step of a page query.
#[derive(Debug, PartialEq)]
pub enum PageStep<T> {
    /// The store is to answer the request; the answer goes to
    /// [`PageQuery::advance`] of the query.
    Ask(PageQuery<T>, StoreRequest),
    /// The query is over.
    Finished(Result<PaginationList<T>, Error>),
}

/// A step of a page query as contracts see it.
pub enum StepView<T> {
    Ask(QueryView<T>, RequestView),
    Finished(Result<PageView<T>, ErrorView>),
}

impl<T> View for PageStep<T> {
    type V = StepView<T>;

    open spec fn view(&self) -> StepView<T> {
        match *self {
            PageStep::Ask(query, request) => StepView::Ask(query@, request@),
            PageStep::Finished(Ok(page)) => StepView::Finished(Ok(page@)),
            PageStep::Finished(Err(e)) => StepView::Finished(Err(e@)),
        }
    }
}

/// The end of a query for a window that the store cannot be asked for.
pub open spec fn out_of_range<T>() -> StepView<T> {
    StepView::Finished(
        Err(
            ErrorView {
                kind: ErrorKind::InvalidInput,
                message: Some("Pagination window is out of range"@),
            },
        ),
    )
}

/// The first step of a query for `window` in the order of `field` and
/// `direction`: a window that the store cannot be asked for is refused, a
/// cursor under a sort by another field than the id is resolved first, and
/// otherwise the rows are asked for at once.
pub open spec fn begin_spec<T>(
    window: Window,
    field: Seq<char>,
    direction: OrderDirection,
) -> StepView<T> {
    let plan = plan_for(window, field, direction);
    if !admissible(window) {
        out_of_range()
    } else if plan.resolves_cursor() {
        StepView::Ask(QueryView::Resolving { plan }, plan.first_request())
    } else {
        StepView::Ask(QueryView::Listing { plan }, plan.first_request())
    }
}

/// The step that follows `reply`. A failure of the store ends the query as
/// unavailable. The value of the cursor's row leads to the query for the
/// rows; the rows make the page and lead to the count; the count, which no
/// window has a part in, ends the query with the page. A query that did not
/// begin with [`begin_spec`] may stand for a window out of range, and ends
/// so.
pub open spec fn advance_spec<T>(query: QueryView<T>, reply: ReplyView<T>) -> StepView<T> {
    match (query, reply) {
        (_, ReplyView::Failed(message)) => StepView::Finished(
            Err(ErrorView { kind: ErrorKind::Unavailable, message: Some(message) }),
        ),
        (QueryView::Resolving { plan }, ReplyView::Field(value)) => if plan.size < i64::MAX {
            StepView::Ask(
                QueryView::Listing { plan },
                plan.rows_request(plan.resolved_bound(value)),
            )
        } else {
            out_of_range()
        },
        (QueryView::Listing { plan }, ReplyView::Rows(rows)) => StepView::Ask(
            QueryView::Counting {
                plan,
                list: page_rows(rows, plan.size, plan.before),
                has_next_page: rows.len() > plan.size,
            },
            RequestView::Count,
        ),
        (QueryView::Counting { plan, list, has_next_page }, ReplyView::Count(total)) => {
            StepView::Finished(Ok(PageView { list, total, has_next_page }))
        },
        _ => StepView::Finished(
            Err(
                ErrorView {
                    kind: ErrorKind::Unknown,
                    message: Some("Unexpected reply from the store"@),
                },
            ),
        ),
    }
}

/// Whether `field` names the store's identity field.
pub fn is_id_field(field: &str) -> (res: bool)
    ensures
        res == (field@ == id_field()),
{
    let a = field.to_owned();
    let b = "_id".to_owned();
    a == b
}

/// `rows` in the opposite order.
pub fn turned<T>(rows: Vec<T>) -> (out: Vec<T>)
    ensures
        out@ == rows@.reverse(),
{
    let ghost all = rows@;
    let mut rest = rows;
    let mut out: Vec<T> = Vec::new();
    while rest.len() > 0
        invariant
            rest@.len() + out@.len() == all.len(),
            rest@ == all.take(rest@.len() as int),
            forall|i: int| 0 <= i < out@.len() ==> out@[i] == all[all.len() - 1 - i],
        decreases rest@.len(),
    {
        let last = rest.pop().unwrap();
        out.push(last);
    }
    assert(out@ =~= all.reverse());
    out
}

/// The page made of what the store returned for a window of `size` rows.
pub fn page_of_rows<T>(rows: Vec<T>, size: u64, before: bool) -> (out: Vec<T>)
    ensures
        out@ == page_rows(rows@, size, before),
        out@.len() <= size,
{
    let mut kept = rows;
    if kept.len() as u64 > size {
        kept.truncate(size as usize);
    }
    if before {
        turned(kept)
    } else {
        kept
    }
}

impl QueryPlan {
    fn op(&self) -> (res: KeysetOp)
        ensures
            res == self@.op(),
    {
        if self.ascending {
            KeysetOp::Greater
        } else {
            KeysetOp::Less
        }
    }

    fn sort(&self) -> (res: Vec<SortKey>)
        ensures
            res@.map_values(|k: SortKey| k@) == self@.sort(),
    {
        let mut keys: Vec<SortKey> = Vec::new();
        if !is_id_field(self.sort_field.as_str()) {
            keys.push(SortKey { field: self.sort_field.clone(), ascending: self.ascending });
        }
        keys.push(SortKey { field: "_id".to_owned(), ascending: self.ascending });
        assert(keys@.map_values(|k: SortKey| k@) =~= self@.sort());
        keys
    }

    fn rows_request(&self, bound: KeysetBound) -> (res: StoreRequest)
        requires
            self.size < i64::MAX,
        ensures
            res@ == self@.rows_request(bound@),
    {
        StoreRequest::Rows {
            bound,
            sort: self.sort(),
            skip: self.skip,
            limit: (self.size + 1) as i64,
        }
    }

    fn direct_bound(&self) -> (res: KeysetBound)
        ensures
            res@ == self@.direct_bound(),
    {
        match &self.cursor {
            Some(id) => KeysetBound::Id { op: self.op(), id: id.clone() },
            None => KeysetBound::Unbounded,
        }
    }

    fn resolved_bound(&self, value: Option<u64>) -> (res: KeysetBound)
        ensures
            res@ == self@.resolved_bound(value),
    {
        match (&self.cursor, value) {
            (Some(id), Some(value)) => KeysetBound::FieldThenId {
                op: self.op(),
                field: self.sort_field.clone(),
                value,
                id: id.clone(),
            },
            _ => KeysetBound::Unbounded,
        }
    }
}

impl<T> PageQuery<T> {
    /// The page size that the query was begun with.
    pub open spec fn size(self) -> u64 {
        match self {
            PageQuery::Resolving { plan } => plan.size,
            PageQuery::Listing { plan } => plan.size,
            PageQuery::Counting { plan, .. } => plan.size,
        }
    }

    /// Starts the query for the window `pagination`, sorted as `order_by`
    /// says.
    pub fn begin<E>(pagination: Pagination<Id<E>>, order_by: OrderBy<&str>) -> (res: PageStep<T>)
        ensures
            res@ == begin_spec::<T>(window_of(pagination), order_by.field@, order_by.direction),
    {
        let (before, cursor, skip, size) = match pagination {
            Pagination::After { after, skip, first } => (false, after, skip, first),
            Pagination::Before { before, skip, last } => (true, before, skip, last),
        };
        let skip_fits = match skip {
            Some(s) => s <= i64::MAX as u64,
            None => true,
        };
        if size >= i64::MAX as u64 || !skip_fits {
            return PageStep::Finished(
                Err(Error::invalid_input(Some("Pagination window is out of range".to_owned()))),
            );
        }
        let descending = match order_by.direction {
            OrderDirection::Asc => false,
            OrderDirection::Desc => true,
        };
        let plan = QueryPlan {
            before,
            ascending: before == descending,
            sort_field: order_by.field.to_owned(),
            cursor: match cursor {
                Some(id) => Some(id.into_string()),
                None => None,
            },
            skip: match skip {
                Some(s) => Some(s as i64),
                None => None,
            },
            size,
        };
        assert(plan@ == plan_for(window_of(pagination), order_by.field@, order_by.direction));
        let by_id = is_id_field(plan.sort_field.as_str());
        match &plan.cursor {
            Some(id) if !by_id => {
                let request = StoreRequest::FieldOfRow {
                    id: id.clone(),
                    field: plan.sort_field.clone(),
                };
                PageStep::Ask(PageQuery::Resolving { plan }, request)
            },
            _ => {
                let request = plan.rows_request(plan.direct_bound());
                PageStep::Ask(PageQuery::Listing { plan }, request)
            },
        }
    }

    /// Takes the store's answer to the request that was handed out last,
    /// and says what follows.
    pub fn advance(self, reply: StoreReply<T>) -> (res: PageStep<T>)
        ensures
            res@ == advance_spec(self@, reply@),
            res matches PageStep::Ask(PageQuery::Counting { list, .. }, _) ==> list@.len()
                <= self.size(),
    {
        match (self, reply) {
            (_, StoreReply::Failed(message)) => PageStep::Finished(
                Err(Error::unavailable(Some(message))),
            ),
            (PageQuery::Resolving { plan }, StoreReply::Field(value)) => {
                if plan.size < i64::MAX as u64 {
                    let request = plan.rows_request(plan.resolved_bound(value));
                    PageStep::Ask(PageQuery::Listing { plan }, request)
                } else {
                    PageStep::Finished(
                        Err(
                            Error::invalid_input(
                                Some("Pagination window is out of range".to_owned()),
                            ),
                        ),
                    )
                }
            },
            (PageQuery::Listing { plan }, StoreReply::Rows(rows)) => {
                let has_next_page = rows.len() as u64 > plan.size;
                let list = page_of_rows(rows, plan.size, plan.before);
                PageStep::Ask(PageQuery::Counting { plan, list, has_next_page }, StoreRequest::Count)
            },
            (PageQuery::Counting { plan, list, has_next_page }, StoreReply::Count(total)) => {
                PageStep::Finished(Ok(PaginationList { list, total, has_next_page }))
            },
            _ => PageStep::Finished(
                Err(Error::unknown(Some("Unexpected reply from the store".to_owned()))),
            ),
        }
    }
}

} // verus!
