use vstd::prelude::*;

verus! {

/// Where a page stands: the cursors of its first and last item, and
/// whether items lie beyond it.
#[derive(Debug, Clone, PartialEq)]
pub struct PageInfo {
    pub start_cursor: Option<String>,
    pub end_cursor: Option<String>,
    pub has_next_page: bool,
}

} // verus!
