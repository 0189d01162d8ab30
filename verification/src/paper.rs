use vstd::prelude::*;

use crate::id::Id;
use crate::user::UserId;

verus! {

/// The fields that papers can be sorted by.
#[derive(Debug, Clone, Copy, PartialEq, Eq, Structural)]
pub enum PaperOrderField {
    Id,
    UpdatedAt,
}

/// Marks the ids of papers.
#[derive(Debug, Clone, Copy, PartialEq, Eq, Structural)]
pub struct PaperTag;

/// The id of a paper.
pub type PaperId = Id<PaperTag>;

/// A paper. It belongs to the user `user_id`.
#[derive(Debug, PartialEq)]
pub struct Paper {
    pub id: PaperId,
    pub user_id: UserId,
    pub created_at: u64,
    pub updated_at: u64,
    /// When the paper was deleted, if it was. A deleted paper stays in the
    /// store.
    pub deleted_at: Option<u64>,
    pub title: Option<String>,
}

/// A paper as contracts see it.
pub struct PaperView {
    pub id: Seq<char>,
    pub user_id: Seq<char>,
    pub created_at: u64,
    pub updated_at: u64,
    pub deleted_at: Option<u64>,
    pub title: Option<Seq<char>>,
}

impl View for Paper {
    type V = PaperView;

    open spec fn view(&self) -> PaperView {
        PaperView {
            id: self.id@,
            user_id: self.user_id@,
            created_at: self.created_at,
            updated_at: self.updated_at,
            deleted_at: self.deleted_at,
            title: match self.title {
                Some(t) => Some(t@),
                None => None,
            },
        }
    }
}

impl Clone for Paper {
    fn clone(&self) -> (res: Self)
        ensures
            res@ == self@,
    {
        Paper {
            id: self.id.clone(),
            user_id: self.user_id.clone(),
            created_at: self.created_at,
            updated_at: self.updated_at,
            deleted_at: self.deleted_at,
            title: match &self.title {
                Some(t) => Some(t.clone()),
                None => None,
            },
        }
    }
}

impl Paper {
    /// A paper is not updated before it is created.
    pub open spec fn well_formed(self) -> bool {
        self.created_at <= self.updated_at
    }
}

} // verus!
