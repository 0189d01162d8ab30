use vstd::prelude::*;

verus! {

/// A window into a sorted collection, relative to a cursor.
#[derive(Debug, PartialEq)]
pub enum Pagination<T> {
    /// The `first` items that follow `after`.
    After { after: Option<T>, skip: Option<u64>, first: u64 },
    /// The `last` items that precede `before`.
    Before { before: Option<T>, skip: Option<u64>, last: u64 },
}

impl<T> Pagination<T> {
    /// The cursor the window is relative to, if any.
    pub open spec fn cursor(self) -> Option<T> {
        match self {
            Pagination::After { after, .. } => after,
            Pagination::Before { before, .. } => before,
        }
    }

    /// How many items past the cursor the window starts.
    pub open spec fn offset(self) -> Option<u64> {
        match self {
            Pagination::After { skip, .. } => skip,
            Pagination::Before { skip, .. } => skip,
        }
    }

    /// The page size asked for.
    pub open spec fn size(self) -> u64 {
        match self {
            Pagination::After { first, .. } => first,
            Pagination::Before { last, .. } => last,
        }
    }
}

/// One page of a collection.
#[derive(Debug, PartialEq)]
pub struct PaginationList<T> {
    /// The items of the page, in the order asked for.
    pub list: Vec<T>,
    /// How many items match the filter, whatever the window.
    pub total: u64,
    /// Whether items lie beyond the page.
    pub has_next_page: bool,
}

/// The direction of a sort.
#[derive(Debug, Clone, Copy, PartialEq, Eq, Structural)]
pub enum OrderDirection {
    Asc,
    Desc,
}

/// A sort order: a field and a direction.
#[derive(Debug, PartialEq)]
pub struct OrderBy<T> {
    pub field: T,
    pub direction: OrderDirection,
}

} // verus!
