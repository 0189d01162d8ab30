//! What the pagination engine returns on a store that does not change.
//!
//! A snapshot stands for the rows of a store at one moment, in ascending
//! order. The store of this module answers each request of the engine from
//! the snapshot as a document store does: it keeps the rows that match the
//! caller's filter and lie within the bound, sorts, skips and limits; it
//! looks the row of a cursor up among all its rows. The laws at the end say
//! what pages the engine then makes.

use vstd::prelude::*;

use crate::keyset::{
    admissible, advance_spec, begin_spec, id_field, page_rows, plan_for, BoundView, KeysetOp,
    PageView, QueryView, ReplyView, RequestView, StepView, Window,
};
use crate::pagination::OrderDirection;

verus! {

/// What the store reads of a row: its id and the value of the sort field.
pub struct Row {
    pub id: Seq<char>,
    pub value: u64,
}

/// Whether `lt` orders the ids as a store does: no id before itself, of two
/// ids one before the other, and transitively.
pub open spec fn orders_ids(lt: spec_fn(Seq<char>, Seq<char>) -> bool) -> bool {
    &&& forall|a: Seq<char>| !#[trigger] lt(a, a)
    &&& forall|a: Seq<char>, b: Seq<char>| a != b ==> #[trigger] lt(a, b) || lt(b, a)
    &&& forall|a: Seq<char>, b: Seq<char>, c: Seq<char>|
        #[trigger] lt(a, b) && #[trigger] lt(b, c) ==> lt(a, c)
}

/// Whether `a` sorts before `b`, ascending: by the id alone, or by the value
/// of the sort field and, where the values are equal, by the id.
pub open spec fn precedes(
    lt: spec_fn(Seq<char>, Seq<char>) -> bool,
    by_id: bool,
    a: Row,
    b: Row,
) -> bool {
    if by_id {
        lt(a.id, b.id)
    } else {
        a.value < b.value || (a.value == b.value && lt(a.id, b.id))
    }
}

/// Whether `stored` can be a snapshot: in ascending order, no id twice, and
/// no more rows than the store can count.
pub open spec fn is_snapshot(
    lt: spec_fn(Seq<char>, Seq<char>) -> bool,
    by_id: bool,
    stored: Seq<Row>,
) -> bool {
    &&& stored.len() <= u64::MAX
    &&& forall|i: int, j: int|
        0 <= i < j < stored.len() ==> precedes(
            lt,
            by_id,
            #[trigger] stored[i],
            #[trigger] stored[j],
        )
    &&& forall|i: int, j: int|
        0 <= i < j < stored.len() ==> (#[trigger] stored[i]).id != (#[trigger] stored[j]).id
}

/// Whether a row lies within `bound`.
pub open spec fn lies_within(
    lt: spec_fn(Seq<char>, Seq<char>) -> bool,
    bound: BoundView,
    row: Row,
) -> bool {
    match bound {
        BoundView::Unbounded => true,
        BoundView::Id { op: KeysetOp::Greater, id } => lt(id, row.id),
        BoundView::Id { op: KeysetOp::Less, id } => lt(row.id, id),
        BoundView::FieldThenId { op: KeysetOp::Greater, value, id, .. } => row.value > value || (
        row.value == value && lt(id, row.id)),
        BoundView::FieldThenId { op: KeysetOp::Less, value, id, .. } => row.value < value || (
        row.value == value && lt(row.id, id)),
    }
}

/// The rows from `skip` on, `limit` at most.
pub open spec fn windowed(rows: Seq<Row>, skip: Option<i64>, limit: i64) -> Seq<Row> {
    let from = match skip {
        Some(s) => if s < 0 {
            0
        } else if s > rows.len() {
            rows.len() as int
        } else {
            s as int
        },
        None => 0,
    };
    let to = if limit < 0 {
        from
    } else if from + limit > rows.len() {
        rows.len() as int
    } else {
        from + limit
    };
    rows.subrange(from, to)
}

/// The rows that match the caller's filter `keep`, in ascending order.
pub open spec fn matching(stored: Seq<Row>, keep: spec_fn(Row) -> bool) -> Seq<Row> {
    stored.filter(keep)
}

/// The value of the sort field in the row whose id is `id`, among all rows
/// of the store, whether they match a filter or not.
pub open spec fn value_of(stored: Seq<Row>, id: Seq<char>) -> Option<u64> {
    let at = choose|i: int| 0 <= i < stored.len() && (#[trigger] stored[i]).id == id;
    if 0 <= at < stored.len() && stored[at].id == id {
        Some(stored[at].value)
    } else {
        None
    }
}

/// What the store answers to `request` on the snapshot `stored`, for a
/// caller whose filter is `keep`.
pub open spec fn answer(
    lt: spec_fn(Seq<char>, Seq<char>) -> bool,
    stored: Seq<Row>,
    keep: spec_fn(Row) -> bool,
    request: RequestView,
) -> ReplyView<Row> {
    match request {
        RequestView::FieldOfRow { id, .. } => ReplyView::Field(value_of(stored, id)),
        RequestView::Rows { bound, sort, skip, limit } => {
            let kept = matching(stored, keep).filter(|row: Row| lies_within(lt, bound, row));
            let sorted = if sort.len() > 0 && !sort[0].ascending {
                kept.reverse()
            } else {
                kept
            };
            ReplyView::Rows(windowed(sorted, skip, limit))
        },
        RequestView::Count => ReplyView::Count(matching(stored, keep).len() as u64),
    }
}

/// The step that follows `step` when the store answers from `stored`.
pub open spec fn follow(
    lt: spec_fn(Seq<char>, Seq<char>) -> bool,
    stored: Seq<Row>,
    keep: spec_fn(Row) -> bool,
    step: StepView<Row>,
) -> StepView<Row> {
    match step {
        StepView::Ask(query, request) => advance_spec(query, answer(lt, stored, keep, request)),
        StepView::Finished(_) => step,
    }
}

/// How the query for `window` ends when the store answers from `stored`.
/// The engine asks three times at most.
pub open spec fn outcome(
    lt: spec_fn(Seq<char>, Seq<char>) -> bool,
    stored: Seq<Row>,
    keep: spec_fn(Row) -> bool,
    window: Window,
    field: Seq<char>,
    direction: OrderDirection,
) -> StepView<Row> {
    follow(
        lt,
        stored,
        keep,
        follow(lt, stored, keep, follow(lt, stored, keep, begin_spec(window, field, direction))),
    )
}

/// The rows in the order asked for.
pub open spec fn ordered(rows: Seq<Row>, direction: OrderDirection) -> Seq<Row> {
    match direction {
        OrderDirection::Asc => rows,
        OrderDirection::Desc => rows.reverse(),
    }
}

/// The other direction.
pub open spec fn opposite(direction: OrderDirection) -> OrderDirection {
    match direction {
        OrderDirection::Asc => OrderDirection::Desc,
        OrderDirection::Desc => OrderDirection::Asc,
    }
}

/// The forward window of `size` rows after `cursor`.
pub open spec fn forward(cursor: Option<Seq<char>>, size: u64) -> Window {
    Window { before: false, cursor, skip: None, size }
}

/// The forward window of `size` rows that skips `skip` rows after `cursor`.
pub open spec fn forward_skipping(cursor: Option<Seq<char>>, skip: u64, size: u64) -> Window {
    Window { before: false, cursor, skip: Some(skip), size }
}

/// The backward window of `size` rows before `cursor`.
pub open spec fn backward(cursor: Option<Seq<char>>, size: u64) -> Window {
    Window { before: true, cursor, skip: None, size }
}

/// The cursor that stands behind the first `p` rows of `all`: the id of the
/// last of them.
pub open spec fn cursor_behind(all: Seq<Row>, p: int) -> Option<Seq<char>> {
    if p <= 0 {
        None
    } else {
        Some(all[p - 1].id)
    }
}

/// The cursor that stands before the rows of `all` from `p` on: the id of
/// the first of them.
pub open spec fn cursor_before(all: Seq<Row>, p: int) -> Option<Seq<char>> {
    if p >= all.len() {
        None
    } else {
        Some(all[p].id)
    }
}

/// The end of `p` and `size` rows further, within `len` rows.
pub open spec fn page_end(p: int, size: u64, len: nat) -> int {
    if p + size > len {
        len as int
    } else {
        p + size
    }
}

/// The start of the `size` rows that end before `p`.
pub open spec fn page_start(p: int, size: u64) -> int {
    if p - size < 0 {
        0
    } else {
        p - size
    }
}

/// The position `skip` rows behind `p`, within `len` rows.
pub open spec fn skipped(p: int, skip: u64, len: nat) -> int {
    if p + skip > len {
        len as int
    } else {
        p + skip
    }
}

/// The page that a forward window behind the first `p` rows comes to.
pub open spec fn forward_page(all: Seq<Row>, p: int, size: u64) -> PageView<Row> {
    PageView {
        list: all.subrange(p, page_end(p, size, all.len())),
        total: all.len() as u64,
        has_next_page: p + size < all.len(),
    }
}

/// The page that a backward window before the rows from `p` on comes to.
pub open spec fn backward_page(all: Seq<Row>, p: int, size: u64) -> PageView<Row> {
    PageView {
        list: all.subrange(page_start(p, size), p),
        total: all.len() as u64,
        has_next_page: p > size,
    }
}

/// The rows of the pages that a client reads forward, one page after the
/// other, from the window behind `cursor` on: while a page has a next page,
/// the next window stands behind the last row of that page. At most `pages`
/// pages are read.
pub open spec fn pages_from(
    lt: spec_fn(Seq<char>, Seq<char>) -> bool,
    stored: Seq<Row>,
    keep: spec_fn(Row) -> bool,
    field: Seq<char>,
    direction: OrderDirection,
    size: u64,
    cursor: Option<Seq<char>>,
    pages: nat,
) -> Seq<Row>
    decreases pages,
{
    if pages == 0 {
        Seq::empty()
    } else {
        match outcome(lt, stored, keep, forward(cursor, size), field, direction) {
            StepView::Finished(Ok(page)) => if page.has_next_page && page.list.len() > 0 {
                page.list + pages_from(
                    lt,
                    stored,
                    keep,
                    field,
                    direction,
                    size,
                    Some(page.list.last().id),
                    (pages - 1) as nat,
                )
            } else {
                page.list
            },
            _ => Seq::empty(),
        }
    }
}

/// The position that the cursor `id` marks: that of the stored row with
/// this id, by the value of its sort field and the id. Under a sort by id
/// the id alone is the position, and no row is needed. A cursor whose row
/// is gone marks no position.
pub open spec fn position_of(stored: Seq<Row>, by_id: bool, id: Seq<char>) -> Option<Row> {
    if by_id {
        Some(Row { id, value: 0 })
    } else {
        match value_of(stored, id) {
            Some(value) => Some(Row { id, value }),
            None => None,
        }
    }
}

/// Whether `row` comes strictly after the position `at` in the order asked
/// for: after it by the sort field, or level with it there and after it by
/// the id.
pub open spec fn comes_after(
    lt: spec_fn(Seq<char>, Seq<char>) -> bool,
    by_id: bool,
    direction: OrderDirection,
    at: Row,
    row: Row,
) -> bool {
    match direction {
        OrderDirection::Asc => precedes(lt, by_id, at, row),
        OrderDirection::Desc => precedes(lt, by_id, row, at),
    }
}

/// The rows that match the filter and come after the position that the
/// cursor `id` marks, in the order asked for; all rows that match, where
/// the cursor marks no position.
pub open spec fn beyond(
    lt: spec_fn(Seq<char>, Seq<char>) -> bool,
    stored: Seq<Row>,
    keep: spec_fn(Row) -> bool,
    by_id: bool,
    direction: OrderDirection,
    id: Seq<char>,
) -> Seq<Row> {
    match position_of(stored, by_id, id) {
        Some(at) => ordered(
            matching(stored, keep).filter(|row: Row| comes_after(lt, by_id, direction, at, row)),
            direction,
        ),
        None => ordered(matching(stored, keep), direction),
    }
}

/// The first `size` rows of `rows`, as a page.
pub open spec fn first_page(rows: Seq<Row>, size: u64, total: nat) -> PageView<Row> {
    PageView {
        list: if rows.len() > size {
            rows.take(size as int)
        } else {
            rows
        },
        total: total as u64,
        has_next_page: rows.len() > size,
    }
}

proof fn lemma_filter_from(rows: Seq<Row>, pred: spec_fn(Row) -> bool, k: int)
    requires
        0 <= k <= rows.len(),
        forall|j: int| 0 <= j < k ==> !pred(#[trigger] rows[j]),
        forall|j: int| k <= j < rows.len() ==> pred(#[trigger] rows[j]),
    ensures
        rows.filter(pred) == rows.skip(k),
    decreases rows.len(),
{
    reveal(Seq::filter);
    if rows.len() == 0 {
        assert(rows.filter(pred) =~= rows.skip(k));
    } else {
        let front = rows.drop_last();
        assert forall|j: int| 0 <= j < front.len() implies front[j] == rows[j] by {}
        if k == rows.len() {
            lemma_filter_from(front, pred, k - 1);
            assert(!pred(rows[k - 1]));
            assert(rows.filter(pred) =~= rows.skip(k));
        } else {
            lemma_filter_from(front, pred, k);
            assert(pred(rows[rows.len() - 1]));
            assert(rows.filter(pred) =~= rows.skip(k));
        }
    }
}

proof fn lemma_filter_upto(rows: Seq<Row>, pred: spec_fn(Row) -> bool, k: int)
    requires
        0 <= k <= rows.len(),
        forall|j: int| 0 <= j < k ==> pred(#[trigger] rows[j]),
        forall|j: int| k <= j < rows.len() ==> !pred(#[trigger] rows[j]),
    ensures
        rows.filter(pred) == rows.take(k),
    decreases rows.len(),
{
    reveal(Seq::filter);
    if rows.len() == 0 {
        assert(rows.filter(pred) =~= rows.take(k));
    } else {
        let front = rows.drop_last();
        assert forall|j: int| 0 <= j < front.len() implies front[j] == rows[j] by {}
        if k == rows.len() {
            lemma_filter_upto(front, pred, k - 1);
            assert(pred(rows[k - 1]));
            assert(rows.filter(pred) =~= rows.take(k));
        } else {
            lemma_filter_upto(front, pred, k);
            assert(!pred(rows[rows.len() - 1]));
            assert(rows.filter(pred) =~= rows.take(k));
        }
    }
}

/// In a snapshot, the row at `i` precedes the row at `j` exactly where
/// `i < j`.
proof fn lemma_precedes_by_index(
    lt: spec_fn(Seq<char>, Seq<char>) -> bool,
    by_id: bool,
    rows: Seq<Row>,
    i: int,
    j: int,
)
    requires
        orders_ids(lt),
        is_snapshot(lt, by_id, rows),
        0 <= i < rows.len(),
        0 <= j < rows.len(),
    ensures
        precedes(lt, by_id, rows[i], rows[j]) <==> i < j,
{
    let a = rows[i];
    let b = rows[j];
    if i < j {
        assert(precedes(lt, by_id, a, b));
    } else if j < i {
        assert(precedes(lt, by_id, b, a));
        if precedes(lt, by_id, a, b) {
            if lt(a.id, b.id) && lt(b.id, a.id) {
                assert(lt(a.id, a.id));
            }
        }
    } else {
        assert(!lt(a.id, a.id));
    }
}

/// In a snapshot, an id is looked up to the value of its row.
proof fn lemma_value_of(rows: Seq<Row>, i: int)
    requires
        0 <= i < rows.len(),
        forall|i: int, j: int|
            0 <= i < j < rows.len() ==> (#[trigger] rows[i]).id != (#[trigger] rows[j]).id,
    ensures
        value_of(rows, rows[i].id) == Some(rows[i].value),
{
    let id = rows[i].id;
    let at = choose|k: int| 0 <= k < rows.len() && (#[trigger] rows[k]).id == id;
    assert(0 <= at < rows.len() && rows[at].id == id);
    if at < i {
        assert(rows[at].id != rows[i].id);
    } else if i < at {
        assert(rows[i].id != rows[at].id);
    }
}

/// The other direction turns the order round.
proof fn lemma_opposite(rows: Seq<Row>, direction: OrderDirection)
    ensures
        ordered(rows, opposite(direction)) == ordered(rows, direction).reverse(),
        ordered(rows, direction).len() == rows.len(),
{
    match direction {
        OrderDirection::Asc => {},
        OrderDirection::Desc => {
            assert(rows.reverse().reverse() =~= rows);
        },
    }
}

/// The bound that the engine sets behind the row `c`.
spec fn bound_behind(by_id: bool, ascending: bool, field: Seq<char>, c: Row) -> BoundView {
    let op = if ascending {
        KeysetOp::Greater
    } else {
        KeysetOp::Less
    };
    if by_id {
        BoundView::Id { op, id: c.id }
    } else {
        BoundView::FieldThenId { op, field, value: c.value, id: c.id }
    }
}

/// What the store lists for `bound`, before it skips and limits.
spec fn listed(
    lt: spec_fn(Seq<char>, Seq<char>) -> bool,
    rows: Seq<Row>,
    bound: BoundView,
    ascending: bool,
) -> Seq<Row> {
    let kept = rows.filter(|row: Row| lies_within(lt, bound, row));
    if ascending {
        kept
    } else {
        kept.reverse()
    }
}

/// Behind the first `p` rows of the order asked for, the store lists the
/// rest of that order.
proof fn lemma_listed_behind(
    lt: spec_fn(Seq<char>, Seq<char>) -> bool,
    rows: Seq<Row>,
    by_id: bool,
    direction: OrderDirection,
    field: Seq<char>,
    p: int,
)
    requires
        orders_ids(lt),
        is_snapshot(lt, by_id, rows),
        0 < p <= rows.len(),
    ensures
        listed(
            lt,
            rows,
            bound_behind(by_id, direction is Asc, field, ordered(rows, direction)[p - 1]),
            direction is Asc,
        ) == ordered(rows, direction).skip(p),
{
    let all = ordered(rows, direction);
    let c = all[p - 1];
    let bound = bound_behind(by_id, direction is Asc, field, c);
    let pred = |row: Row| lies_within(lt, bound, row);
    match direction {
        OrderDirection::Asc => {
            assert forall|j: int| 0 <= j < rows.len() implies (pred(#[trigger] rows[j]) <==> p - 1
                < j) by {
                lemma_precedes_by_index(lt, by_id, rows, p - 1, j);
            }
            lemma_filter_from(rows, pred, p);
        },
        OrderDirection::Desc => {
            let k = rows.len() - p;
            assert(c == rows[k]);
            assert forall|j: int| 0 <= j < rows.len() implies (pred(#[trigger] rows[j]) <==> j
                < k) by {
                lemma_precedes_by_index(lt, by_id, rows, j, k);
            }
            lemma_filter_upto(rows, pred, k);
            assert(rows.take(k).reverse() =~= rows.reverse().skip(p));
        },
    }
}

/// With no bound the store lists the whole order asked for.
proof fn lemma_listed_unbounded(
    lt: spec_fn(Seq<char>, Seq<char>) -> bool,
    rows: Seq<Row>,
    direction: OrderDirection,
)
    ensures
        listed(lt, rows, BoundView::Unbounded, direction is Asc) == ordered(rows, direction),
{
    let pred = |row: Row| lies_within(lt, BoundView::Unbounded, row);
    lemma_filter_from(rows, pred, 0);
    assert(rows.skip(0) =~= rows);
}

/// Two filters that agree on every row keep the same rows.
proof fn lemma_filter_same(rows: Seq<Row>, p: spec_fn(Row) -> bool, q: spec_fn(Row) -> bool)
    requires
        forall|j: int| 0 <= j < rows.len() ==> p(#[trigger] rows[j]) == q(rows[j]),
    ensures
        rows.filter(p) == rows.filter(q),
    decreases rows.len(),
{
    reveal(Seq::filter);
    if rows.len() > 0 {
        let front = rows.drop_last();
        assert forall|j: int| 0 <= j < front.len() implies p(#[trigger] front[j]) == q(
            front[j],
        ) by {
            assert(front[j] == rows[j]);
        }
        lemma_filter_same(front, p, q);
        assert(p(rows[rows.len() - 1]) == q(rows[rows.len() - 1]));
    }
}

/// Each row that matches is a row of the store, and a later one stands
/// later in the store.
proof fn lemma_matching_index(stored: Seq<Row>, keep: spec_fn(Row) -> bool, i: int, j: int) -> (at: (int, int))
    requires
        0 <= i <= j < matching(stored, keep).len(),
    ensures
        0 <= at.0 <= at.1 < stored.len(),
        i < j ==> at.0 < at.1,
        stored[at.0] == matching(stored, keep)[i],
        stored[at.1] == matching(stored, keep)[j],
    decreases stored.len(),
{
    reveal(Seq::filter);
    let rows = matching(stored, keep);
    let front = stored.drop_last();
    let last = stored.len() - 1;
    assert(stored.len() > 0);
    if keep(stored.last()) && j == rows.len() - 1 {
        assert(rows =~= front.filter(keep).push(stored.last()));
        if i == j {
            (last, last)
        } else {
            let at = lemma_matching_index(front, keep, i, i);
            assert(front[at.0] == stored[at.0]);
            (at.0, last)
        }
    } else {
        assert(rows.len() > j);
        if keep(stored.last()) {
            assert(rows =~= front.filter(keep).push(stored.last()));
        } else {
            assert(rows =~= front.filter(keep));
        }
        let at = lemma_matching_index(front, keep, i, j);
        assert(front[at.0] == stored[at.0] && front[at.1] == stored[at.1]);
        at
    }
}

/// The rows of a snapshot that match a filter are a snapshot.
proof fn lemma_matching(
    lt: spec_fn(Seq<char>, Seq<char>) -> bool,
    by_id: bool,
    stored: Seq<Row>,
    keep: spec_fn(Row) -> bool,
)
    requires
        is_snapshot(lt, by_id, stored),
    ensures
        is_snapshot(lt, by_id, matching(stored, keep)),
{
    let rows = matching(stored, keep);
    stored.lemma_filter_len(keep);
    assert forall|i: int, j: int| 0 <= i < j < rows.len() implies precedes(
        lt,
        by_id,
        #[trigger] rows[i],
        #[trigger] rows[j],
    ) && rows[i].id != rows[j].id by {
        let at = lemma_matching_index(stored, keep, i, j);
        assert(precedes(lt, by_id, stored[at.0], stored[at.1]));
        assert(stored[at.0].id != stored[at.1].id);
    }
}

/// The id of a row that matches is looked up to the value of that row.
proof fn lemma_value_in_order(
    stored: Seq<Row>,
    keep: spec_fn(Row) -> bool,
    direction: OrderDirection,
    k: int,
)
    requires
        0 <= k < matching(stored, keep).len(),
        forall|i: int, j: int|
            0 <= i < j < stored.len() ==> (#[trigger] stored[i]).id != (#[trigger] stored[j]).id,
    ensures
        value_of(stored, ordered(matching(stored, keep), direction)[k].id) == Some(
            ordered(matching(stored, keep), direction)[k].value,
        ),
{
    let rows = matching(stored, keep);
    let i = match direction {
        OrderDirection::Asc => k,
        OrderDirection::Desc => rows.len() - 1 - k,
    };
    assert(ordered(rows, direction)[k] == rows[i]);
    let at = lemma_matching_index(stored, keep, i, i);
    lemma_value_of(stored, at.0);
}

/// The rows that the store returns for `window` behind `bound`, of the rows
/// that match.
spec fn fetched(
    lt: spec_fn(Seq<char>, Seq<char>) -> bool,
    rows: Seq<Row>,
    window: Window,
    field: Seq<char>,
    direction: OrderDirection,
    bound: BoundView,
) -> Seq<Row> {
    let plan = plan_for(window, field, direction);
    windowed(listed(lt, rows, bound, plan.ascending), plan.skip, (window.size + 1) as i64)
}

/// The bound that the engine sets for `window` on the snapshot `stored`.
spec fn bound_of(
    stored: Seq<Row>,
    window: Window,
    field: Seq<char>,
    direction: OrderDirection,
) -> BoundView {
    let plan = plan_for(window, field, direction);
    if plan.resolves_cursor() {
        plan.resolved_bound(value_of(stored, window.cursor->0))
    } else {
        plan.direct_bound()
    }
}

/// How a query ends: the rows that the store returns are cut to the page,
/// and the count follows.
proof fn lemma_ends(
    lt: spec_fn(Seq<char>, Seq<char>) -> bool,
    stored: Seq<Row>,
    keep: spec_fn(Row) -> bool,
    window: Window,
    field: Seq<char>,
    direction: OrderDirection,
)
    requires
        admissible(window),
        stored.len() <= u64::MAX,
    ensures
        outcome(lt, stored, keep, window, field, direction) == StepView::Finished(
            Ok(
                PageView {
                    list: page_rows(
                        fetched(
                            lt,
                            matching(stored, keep),
                            window,
                            field,
                            direction,
                            bound_of(stored, window, field, direction),
                        ),
                        window.size,
                        window.before,
                    ),
                    total: matching(stored, keep).len() as u64,
                    has_next_page: fetched(
                        lt,
                        matching(stored, keep),
                        window,
                        field,
                        direction,
                        bound_of(stored, window, field, direction),
                    ).len() > window.size,
                },
            ),
        ),
{
    let rows = matching(stored, keep);
    let plan = plan_for(window, field, direction);
    let bound = bound_of(stored, window, field, direction);
    assert(plan.sort().len() > 0 && plan.sort()[0].ascending == plan.ascending);
    let first = begin_spec::<Row>(window, field, direction);
    let listing = StepView::Ask(QueryView::Listing { plan }, plan.rows_request(bound));
    let second = if plan.resolves_cursor() {
        follow(lt, stored, keep, first)
    } else {
        first
    };
    assert(second == listing);
    let got = fetched(lt, rows, window, field, direction, bound);
    assert(answer(lt, stored, keep, plan.rows_request(bound)) == ReplyView::Rows(got));
    let counting = StepView::Ask(
        QueryView::Counting {
            plan,
            list: page_rows(got, window.size, window.before),
            has_next_page: got.len() > window.size,
        },
        RequestView::Count,
    );
    assert(follow(lt, stored, keep, listing) == counting);
    let done = StepView::Finished(
        Ok::<_, crate::result::ErrorView>(
            PageView {
                list: page_rows(got, window.size, window.before),
                total: rows.len() as u64,
                has_next_page: got.len() > window.size,
            },
        ),
    );
    assert(follow(lt, stored, keep, counting) == done);
    assert(follow(lt, stored, keep, done) == done);
}

/// Where the store walks in the direction `walk`, and the cursor of the
/// window stands behind the first `q` rows of that walk, the query ends
/// with what the window keeps of the rows of the walk from `q` on.
proof fn lemma_walk(
    lt: spec_fn(Seq<char>, Seq<char>) -> bool,
    stored: Seq<Row>,
    keep: spec_fn(Row) -> bool,
    window: Window,
    field: Seq<char>,
    direction: OrderDirection,
    walk: OrderDirection,
    q: int,
)
    requires
        orders_ids(lt),
        is_snapshot(lt, field == id_field(), stored),
        admissible(window),
        0 <= q <= matching(stored, keep).len(),
        window.cursor == cursor_behind(ordered(matching(stored, keep), walk), q),
        plan_for(window, field, direction).ascending == (walk is Asc),
    ensures
        is_snapshot(lt, field == id_field(), matching(stored, keep)),
        ordered(matching(stored, keep), walk).len() == matching(stored, keep).len(),
        outcome(lt, stored, keep, window, field, direction) == StepView::Finished(
            Ok(
                PageView {
                    list: page_rows(
                        windowed(
                            ordered(matching(stored, keep), walk).skip(q),
                            plan_for(window, field, direction).skip,
                            (window.size + 1) as i64,
                        ),
                        window.size,
                        window.before,
                    ),
                    total: matching(stored, keep).len() as u64,
                    has_next_page: windowed(
                        ordered(matching(stored, keep), walk).skip(q),
                        plan_for(window, field, direction).skip,
                        (window.size + 1) as i64,
                    ).len() > window.size,
                },
            ),
        ),
{
    let rows = matching(stored, keep);
    lemma_matching(lt, field == id_field(), stored, keep);
    lemma_opposite(rows, walk);
    let away = ordered(rows, walk);
    let by_id = field == id_field();
    let plan = plan_for(window, field, direction);
    let ascending = walk is Asc;
    let bound = if q == 0 {
        BoundView::Unbounded
    } else {
        bound_behind(by_id, ascending, field, away[q - 1])
    };
    assert(listed(lt, rows, bound, ascending) == away.skip(q)) by {
        if q == 0 {
            lemma_listed_unbounded(lt, rows, walk);
            assert(away.skip(0) =~= away);
        } else {
            lemma_listed_behind(lt, rows, by_id, walk, field, q);
        }
    }
    if plan.resolves_cursor() {
        lemma_value_in_order(stored, keep, walk, q - 1);
    }
    assert(bound == bound_of(stored, window, field, direction));
    lemma_ends(lt, stored, keep, window, field, direction);
}

/// The rows that a forward window keeps of what the store returned.
proof fn lemma_forward_rows(all: Seq<Row>, p: int, size: u64)
    requires
        0 <= p <= all.len(),
        size < i64::MAX,
    ensures
        page_rows(windowed(all.skip(p), None, (size + 1) as i64), size, false) == all.subrange(
            p,
            page_end(p, size, all.len()),
        ),
        (windowed(all.skip(p), None, (size + 1) as i64).len() > size) == (p + size < all.len()),
{
    let fetched = windowed(all.skip(p), None, (size + 1) as i64);
    assert(page_rows(fetched, size, false) =~= all.subrange(p, page_end(p, size, all.len())));
}

/// The rows that a forward window with a skip keeps of what the store
/// returned.
proof fn lemma_skipping_rows(all: Seq<Row>, p: int, skip: u64, size: u64)
    requires
        0 <= p <= all.len(),
        size < i64::MAX,
        skip <= i64::MAX,
    ensures
        page_rows(
            windowed(all.skip(p), Some(skip as i64), (size + 1) as i64),
            size,
            false,
        ) == forward_page(all, skipped(p, skip, all.len()), size).list,
        (windowed(all.skip(p), Some(skip as i64), (size + 1) as i64).len() > size) == forward_page(
            all,
            skipped(p, skip, all.len()),
            size,
        ).has_next_page,
{
    let from = skipped(p, skip, all.len());
    let got = windowed(all.skip(p), Some(skip as i64), (size + 1) as i64);
    assert(page_rows(got, size, false) =~= all.subrange(from, page_end(from, size, all.len())));
}

/// The rows that a backward window keeps of what the store returned.
proof fn lemma_backward_rows(all: Seq<Row>, p: int, size: u64)
    requires
        0 <= p <= all.len(),
        size < i64::MAX,
    ensures
        page_rows(
            windowed(all.reverse().skip(all.len() - p), None, (size + 1) as i64),
            size,
            true,
        ) == all.subrange(page_start(p, size), p),
        (windowed(all.reverse().skip(all.len() - p), None, (size + 1) as i64).len() > size) == (p
            > size),
{
    let away = all.reverse();
    let rest = away.skip(all.len() - p);
    assert(rest.len() == p);
    let fetched = windowed(rest, None, (size + 1) as i64);
    let kept = if fetched.len() > size {
        fetched.take(size as int)
    } else {
        fetched
    };
    let start = page_start(p, size);
    assert(kept.len() == p - start);
    assert forall|i: int| 0 <= i < kept.len() implies kept[i] == all[p - 1 - i] by {
        assert(kept[i] == rest[i]);
        assert(rest[i] == away[all.len() - p + i]);
    }
    assert(kept.reverse() =~= all.subrange(start, p));
}

/// The total ignores the window. Whatever window is asked for, with or
/// without a cursor or a skip, forward or backward, the query ends with a
/// page; the total of the page is the number of all rows that match the
/// filter; and the page holds no more rows than were asked for.
pub proof fn lemma_total_ignores_window(
    lt: spec_fn(Seq<char>, Seq<char>) -> bool,
    stored: Seq<Row>,
    keep: spec_fn(Row) -> bool,
    window: Window,
    field: Seq<char>,
    direction: OrderDirection,
)
    requires
        admissible(window),
        stored.len() <= u64::MAX,
    ensures
        outcome(lt, stored, keep, window, field, direction) matches StepView::Finished(Ok(page))
            && page.total == matching(stored, keep).len() && page.list.len() <= window.size,
{
    lemma_ends(lt, stored, keep, window, field, direction);
    stored.lemma_filter_len(keep);
}

/// The page behind a cursor. Whatever id the cursor holds, the forward
/// window of `size` rows behind it holds the first `size` of the rows that
/// match the filter and come strictly after the position that the cursor
/// marks, in the order asked for. The position is that of the stored row
/// with this id, whether that row matches the filter or not; so the row of
/// the cursor is not in the page, and a row that is level with it by the
/// sort field and has a later id is. A cursor whose row is gone, under a
/// sort by another field than the id, marks no position, and the page
/// starts at the beginning.
pub proof fn lemma_page_behind_cursor(
    lt: spec_fn(Seq<char>, Seq<char>) -> bool,
    stored: Seq<Row>,
    keep: spec_fn(Row) -> bool,
    field: Seq<char>,
    direction: OrderDirection,
    size: u64,
    cursor: Seq<char>,
)
    requires
        orders_ids(lt),
        is_snapshot(lt, field == id_field(), stored),
        size < i64::MAX,
    ensures
        outcome(lt, stored, keep, forward(Some(cursor), size), field, direction)
            == StepView::Finished(
            Ok(
                first_page(
                    beyond(lt, stored, keep, field == id_field(), direction, cursor),
                    size,
                    matching(stored, keep).len(),
                ),
            ),
        ),
        ({
            let all = beyond(lt, stored, keep, field == id_field(), direction, cursor);
            position_of(stored, field == id_field(), cursor) is Some ==> forall|i: int|
                0 <= i < all.len() ==> (#[trigger] all[i]).id != cursor
        }),
{
    let by_id = field == id_field();
    let rows = matching(stored, keep);
    let window = forward(Some(cursor), size);
    let plan = plan_for(window, field, direction);
    let bound = bound_of(stored, window, field, direction);
    let all = beyond(lt, stored, keep, by_id, direction, cursor);
    lemma_ends(lt, stored, keep, window, field, direction);
    assert(plan.ascending == (direction is Asc));
    assert(listed(lt, rows, bound, plan.ascending) == all) by {
        match position_of(stored, by_id, cursor) {
            Some(at) => {
                let within = |row: Row| lies_within(lt, bound, row);
                let after = |row: Row| comes_after(lt, by_id, direction, at, row);
                assert forall|j: int| 0 <= j < rows.len() implies within(#[trigger] rows[j])
                    == after(rows[j]) by {}
                lemma_filter_same(rows, within, after);
            },
            None => {
                lemma_listed_unbounded(lt, rows, direction);
            },
        }
    }
    let got = windowed(all, None, (size + 1) as i64);
    assert(page_rows(got, size, false) =~= first_page(all, size, rows.len()).list);
    if let Some(at) = position_of(stored, by_id, cursor) {
        let kept = rows.filter(|row: Row| comes_after(lt, by_id, direction, at, row));
        lemma_opposite(kept, direction);
        assert forall|i: int| 0 <= i < all.len() implies (#[trigger] all[i]).id != cursor by {
            let k = match direction {
                OrderDirection::Asc => i,
                OrderDirection::Desc => kept.len() - 1 - i,
            };
            let row = kept[k];
            assert(all[i] == row);
            let after = |row: Row| comes_after(lt, by_id, direction, at, row);
            rows.lemma_filter_pred(after, k);
            assert(comes_after(lt, by_id, direction, at, row));
            assert(!lt(cursor, cursor));
            if !by_id && row.id == cursor {
                assert(kept.contains(row));
                rows.lemma_filter_contains_rev(after, row);
                stored.lemma_filter_contains_rev(keep, row);
                let n = choose|n: int| 0 <= n < stored.len() && stored[n] == row;
                lemma_value_of(stored, n);
            }
        }
    }
}

/// One forward page. On a snapshot, the window of `size` rows behind the
/// first `p` rows that match, of the order asked for, holds the rows that
/// follow them in that order, `size` at most; it has a next page exactly
/// where rows are left behind it; and its total is the number of all rows
/// that match, wherever the window stands.
pub proof fn lemma_forward_page(
    lt: spec_fn(Seq<char>, Seq<char>) -> bool,
    stored: Seq<Row>,
    keep: spec_fn(Row) -> bool,
    field: Seq<char>,
    direction: OrderDirection,
    size: u64,
    p: int,
)
    requires
        orders_ids(lt),
        is_snapshot(lt, field == id_field(), stored),
        size < i64::MAX,
        0 <= p <= matching(stored, keep).len(),
    ensures
        outcome(
            lt,
            stored,
            keep,
            forward(cursor_behind(ordered(matching(stored, keep), direction), p), size),
            field,
            direction,
        ) == StepView::Finished(
            Ok(forward_page(ordered(matching(stored, keep), direction), p, size)),
        ),
        forward_page(ordered(matching(stored, keep), direction), p, size).list.len() <= size,
{
    let all = ordered(matching(stored, keep), direction);
    let window = forward(cursor_behind(all, p), size);
    lemma_walk(lt, stored, keep, window, field, direction, direction, p);
    lemma_forward_rows(all, p, size);
}

proof fn lemma_pages_behind(
    lt: spec_fn(Seq<char>, Seq<char>) -> bool,
    stored: Seq<Row>,
    keep: spec_fn(Row) -> bool,
    field: Seq<char>,
    direction: OrderDirection,
    size: u64,
    p: int,
    pages: nat,
)
    requires
        orders_ids(lt),
        is_snapshot(lt, field == id_field(), stored),
        0 < size < i64::MAX,
        0 <= p <= matching(stored, keep).len(),
        pages > matching(stored, keep).len() - p,
    ensures
        pages_from(
            lt,
            stored,
            keep,
            field,
            direction,
            size,
            cursor_behind(ordered(matching(stored, keep), direction), p),
            pages,
        ) == ordered(matching(stored, keep), direction).skip(p),
    decreases pages,
{
    let all = ordered(matching(stored, keep), direction);
    lemma_opposite(matching(stored, keep), direction);
    lemma_forward_page(lt, stored, keep, field, direction, size, p);
    let page = forward_page(all, p, size);
    if page.has_next_page && page.list.len() > 0 {
        let next = p + size;
        assert(page.list.last() == all[next - 1]);
        assert(cursor_behind(all, next) == Some(page.list.last().id));
        lemma_pages_behind(lt, stored, keep, field, direction, size, next, (pages - 1) as nat);
        assert(page.list + all.skip(next) =~= all.skip(p));
    } else {
        assert(page.list =~= all.skip(p));
    }
}

/// Forward pagination covers the order. On a snapshot, and for any page
/// size but zero, the pages that a client reads forward from the start, each
/// behind the last row of the page before, hold together the rows that
/// match the filter in the order asked for: none left out, none twice.
pub proof fn lemma_forward_pages_cover(
    lt: spec_fn(Seq<char>, Seq<char>) -> bool,
    stored: Seq<Row>,
    keep: spec_fn(Row) -> bool,
    field: Seq<char>,
    direction: OrderDirection,
    size: u64,
)
    requires
        orders_ids(lt),
        is_snapshot(lt, field == id_field(), stored),
        0 < size < i64::MAX,
    ensures
        pages_from(
            lt,
            stored,
            keep,
            field,
            direction,
            size,
            None,
            matching(stored, keep).len() + 1,
        ) == ordered(matching(stored, keep), direction),
{
    let all = ordered(matching(stored, keep), direction);
    lemma_pages_behind(
        lt,
        stored,
        keep,
        field,
        direction,
        size,
        0,
        matching(stored, keep).len() + 1,
    );
    assert(all.skip(0) =~= all);
}

/// A skip offsets past the cursor. On a snapshot, the forward window that
/// skips `skip` rows behind the first `p` rows of the order asked for is the
/// window behind the first `p + skip` rows: the skip is counted from the
/// cursor on, not from the start.
pub proof fn lemma_skip_offsets_past_cursor(
    lt: spec_fn(Seq<char>, Seq<char>) -> bool,
    stored: Seq<Row>,
    keep: spec_fn(Row) -> bool,
    field: Seq<char>,
    direction: OrderDirection,
    skip: u64,
    size: u64,
    p: int,
)
    requires
        orders_ids(lt),
        is_snapshot(lt, field == id_field(), stored),
        size < i64::MAX,
        skip <= i64::MAX,
        0 <= p <= matching(stored, keep).len(),
    ensures
        outcome(
            lt,
            stored,
            keep,
            forward_skipping(
                cursor_behind(ordered(matching(stored, keep), direction), p),
                skip,
                size,
            ),
            field,
            direction,
        ) == StepView::Finished(
            Ok(
                forward_page(
                    ordered(matching(stored, keep), direction),
                    skipped(p, skip, matching(stored, keep).len()),
                    size,
                ),
            ),
        ),
{
    let all = ordered(matching(stored, keep), direction);
    let window = forward_skipping(cursor_behind(all, p), skip, size);
    lemma_walk(lt, stored, keep, window, field, direction, direction, p);
    lemma_skipping_rows(all, p, skip, size);
}

/// One backward page. On a snapshot, the window of `size` rows before the
/// rows from `p` on, of the order asked for, holds the rows that precede
/// them in that order, `size` at most and in that order; it has a next page
/// exactly where rows are left before it; and its total is the number of
/// all rows that match.
pub proof fn lemma_backward_page(
    lt: spec_fn(Seq<char>, Seq<char>) -> bool,
    stored: Seq<Row>,
    keep: spec_fn(Row) -> bool,
    field: Seq<char>,
    direction: OrderDirection,
    size: u64,
    p: int,
)
    requires
        orders_ids(lt),
        is_snapshot(lt, field == id_field(), stored),
        size < i64::MAX,
        0 <= p <= matching(stored, keep).len(),
    ensures
        outcome(
            lt,
            stored,
            keep,
            backward(cursor_before(ordered(matching(stored, keep), direction), p), size),
            field,
            direction,
        ) == StepView::Finished(
            Ok(backward_page(ordered(matching(stored, keep), direction), p, size)),
        ),
        backward_page(ordered(matching(stored, keep), direction), p, size).list.len() <= size,
{
    let rows = matching(stored, keep);
    let all = ordered(rows, direction);
    // the store walks the other way: from the cursor towards the start
    let away = ordered(rows, opposite(direction));
    lemma_opposite(rows, direction);
    let q = rows.len() - p;
    let window = backward(cursor_before(all, p), size);
    assert(q > 0 ==> away[q - 1] == all[p]);
    lemma_walk(lt, stored, keep, window, field, direction, opposite(direction), q);
    lemma_backward_rows(all, p, size);
}

} // verus!
