use vstd::prelude::*;

verus! {

/// The direction of a sort, as clients name it.
#[derive(Debug, Clone, Copy, PartialEq, Eq, Structural)]
pub enum OrderDirection {
    Asc,
    Desc,
}

impl OrderDirection {
    /// The direction as the core knows it.
    pub open spec fn to_core(self) -> crate::pagination::OrderDirection {
        match self {
            OrderDirection::Asc => crate::pagination::OrderDirection::Asc,
            OrderDirection::Desc => crate::pagination::OrderDirection::Desc,
        }
    }

    /// The direction as the core knows it.
    pub fn into(self) -> (res: crate::pagination::OrderDirection)
        ensures
            res == self.to_core(),
    {
        match self {
            OrderDirection::Asc => crate::pagination::OrderDirection::Asc,
            OrderDirection::Desc => crate::pagination::OrderDirection::Desc,
        }
    }
}

} // verus!
