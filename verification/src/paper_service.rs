//! What the paper service decides. The store does the reading and writing;
//! what it found is handed in, and what it is to ask or write is handed out.
//!
//! Every entry point takes the viewer and the outcome of looking the owner
//! up, and calls the guard first: a viewer who is not the owner gets
//! nothing to read and nothing to write.

use vstd::prelude::*;

use crate::guard::{check_found, permits, Capability};
use crate::id::Id;
use crate::keyset::{begin_spec, window_of, PageQuery, PageStep};
use crate::pagination::{OrderBy, Pagination};
use crate::paper::{Paper, PaperId, PaperOrderField, PaperView};
use crate::result::{Error, ErrorKind, ErrorView};
use crate::user::{User, UserId};

verus! {

/// The paper service.
#[derive(Debug, Clone, Copy, PartialEq, Eq, Structural)]
pub struct PaperServiceImpl;

/// Which papers a listing is about: those of one user, either the deleted
/// ones or the others.
#[derive(Debug, PartialEq)]
pub struct PaperFilter {
    pub user_id: String,
    pub deleted: bool,
}

/// A filter of papers as contracts see it.
pub struct PaperFilterView {
    pub user_id: Seq<char>,
    pub deleted: bool,
}

impl View for PaperFilter {
    type V = PaperFilterView;

    open spec fn view(&self) -> PaperFilterView {
        PaperFilterView { user_id: self.user_id@, deleted: self.deleted }
    }
}

impl PaperFilterView {
    /// Whether the listing holds `paper`: it belongs to the user, and it is
    /// deleted exactly where the deleted papers are asked for.
    pub open spec fn selects(self, paper: PaperView) -> bool {
        paper.user_id == self.user_id && (paper.deleted_at is Some) == self.deleted
    }
}

impl PaperFilter {
    /// Whether the listing holds `paper`.
    pub fn selects(&self, paper: &Paper) -> (res: bool)
        ensures
            res == self@.selects(paper@),
    {
        paper.user_id.0 == self.user_id && paper.deleted_at.is_some() == self.deleted
    }
}

/// The lookup of one paper among those of one user.
#[derive(Debug, PartialEq)]
pub struct PaperQuery {
    pub paper_id: String,
    pub user_id: String,
}

/// What the store is to write to delete a paper: the time of deletion. The
/// paper stays in the store.
#[derive(Debug, PartialEq)]
pub struct PaperDeletion {
    pub paper_id: String,
    pub deleted_at: u64,
}

/// The name of a sort field in the store.
pub open spec fn field_name(field: PaperOrderField) -> Seq<char> {
    match field {
        PaperOrderField::Id => "_id"@,
        PaperOrderField::UpdatedAt => "updated_at"@,
    }
}

/// The sort order with the field under its name in the store.
pub fn paper_order_to_str(order_by: OrderBy<PaperOrderField>) -> (res: OrderBy<&'static str>)
    ensures
        res.field@ == field_name(order_by.field),
        res.direction == order_by.direction,
{
    OrderBy {
        field: match order_by.field {
            PaperOrderField::Id => "_id",
            PaperOrderField::UpdatedAt => "updated_at",
        },
        direction: order_by.direction,
    }
}

/// What is said of a paper that is not there.
pub open spec fn paper_not_found() -> ErrorView {
    ErrorView { kind: ErrorKind::NotFound, message: Some("Paper not found"@) }
}

/// What a viewer without `capability` is told.
pub open spec fn denied(capability: Capability) -> ErrorView {
    ErrorView { kind: ErrorKind::Forbidden, message: Some(capability.denial()) }
}

/// Whether `found` is the paper `paper_id` of the user `user_id`.
pub open spec fn is_paper_of(found: Option<Paper>, paper_id: Seq<char>, user_id: Seq<char>) -> bool {
    found matches Some(paper) && paper.id@ == paper_id && paper.user_id@ == user_id
}

/// Whether `res` is what the guard of a paper comes to. A failed lookup of
/// the owner stays the failure it is. A viewer who is not the owner is
/// `Forbidden`, whatever was found. For the owner, a failed lookup of the
/// paper stays the failure it is; the paper that was found is handed back
/// where it is the paper `paper_id` of the owner; anything else is
/// `NotFound`.
pub open spec fn guards_paper(
    capability: Capability,
    viewer: Seq<char>,
    owner: Result<User, Error>,
    paper_id: Seq<char>,
    found: Result<Option<Paper>, Error>,
    res: Result<Paper, Error>,
) -> bool {
    match owner {
        Err(e) => res == Err::<Paper, Error>(e),
        Ok(owner) => if !permits(viewer, owner.id@) {
            res matches Err(e) && e@ == denied(capability)
        } else {
            match found {
                Err(e) => res == Err::<Paper, Error>(e),
                Ok(found) => if is_paper_of(found, paper_id, owner.id@) {
                    res == Ok::<Paper, Error>(found->0)
                } else {
                    res matches Err(e) && e@ == paper_not_found()
                },
            }
        },
    }
}

fn guard_paper(
    capability: Capability,
    viewer_id: &UserId,
    owner: Result<User, Error>,
    paper_id: &PaperId,
    found: Result<Option<Paper>, Error>,
) -> (res: Result<Paper, Error>)
    ensures
        guards_paper(capability, viewer_id@, owner, paper_id@, found, res),
{
    let owner = match check_found(capability, viewer_id, owner) {
        Ok(owner) => owner,
        Err(e) => {
            return Err(e);
        },
    };
    match found {
        Err(e) => Err(e),
        Ok(found) => PaperServiceImpl::find_paper(paper_id, &owner.id, found),
    }
}

impl PaperServiceImpl {
    /// The paper that is to be stored for the user that was looked up,
    /// under the new id `id`, made at `now_msec`: created and updated then,
    /// not deleted, without a title. Only the user itself may make it:
    /// anyone else is `Forbidden`, and a failed lookup stays the failure it
    /// is.
    pub fn create_paper(
        viewer_id: &UserId,
        owner: Result<User, Error>,
        id: String,
        now_msec: u64,
    ) -> (res: Result<Paper, Error>)
        ensures
            match owner {
                Ok(owner) => if permits(viewer_id@, owner.id@) {
                    res matches Ok(paper) && paper.well_formed() && paper@ == (PaperView {
                        id: id@,
                        user_id: owner.id@,
                        created_at: now_msec,
                        updated_at: now_msec,
                        deleted_at: None,
                        title: None,
                    })
                } else {
                    res matches Err(e) && e@ == denied(Capability::Write)
                },
                Err(e) => res == Err::<Paper, Error>(e),
            },
    {
        let owner = match check_found(Capability::Write, viewer_id, owner) {
            Ok(owner) => owner,
            Err(e) => {
                return Err(e);
            },
        };
        Ok(
            Paper {
                id: Id::new(id),
                user_id: owner.id,
                created_at: now_msec,
                updated_at: now_msec,
                deleted_at: None,
                title: None,
            },
        )
    }

    /// The lookup that the guard of a paper needs once the owner was
    /// looked up: that of the paper `paper_id` among the papers of the
    /// owner, and none where the viewer is refused before any paper is
    /// read.
    pub fn paper_query(
        viewer_id: &UserId,
        owner: &Result<User, Error>,
        paper_id: &PaperId,
    ) -> (res: Option<PaperQuery>)
        ensures
            match *owner {
                Ok(owner) => if permits(viewer_id@, owner.id@) {
                    res matches Some(query) && query.paper_id@ == paper_id@ && query.user_id@
                        == owner.id@
                } else {
                    res is None
                },
                Err(_) => res is None,
            },
    {
        match owner {
            Ok(owner) => if *viewer_id == owner.id {
                Some(
                    PaperQuery { paper_id: paper_id.to_string(), user_id: owner.id.to_string() },
                )
            } else {
                None
            },
            Err(_) => None,
        }
    }

    /// The paper that a lookup found, where it is the paper `paper_id` of
    /// the user `user_id`; anything else is `NotFound`.
    pub fn find_paper(paper_id: &PaperId, user_id: &UserId, found: Option<Paper>) -> (res: Result<
        Paper,
        Error,
    >)
        ensures
            if is_paper_of(found, paper_id@, user_id@) {
                res == Ok::<Paper, Error>(found->0)
            } else {
                res matches Err(e) && e@ == paper_not_found()
            },
    {
        match found {
            Some(paper) => if paper.id == *paper_id && paper.user_id == *user_id {
                Ok(paper)
            } else {
                Err(Error::not_found(Some("Paper not found".to_owned())))
            },
            None => Err(Error::not_found(Some("Paper not found".to_owned()))),
        }
    }

    /// Whether `viewer_id` may read the paper `paper_id` of the user that
    /// was looked up, and the paper: see [`guards_paper`].
    pub fn can_viewer_read_paper(
        viewer_id: &UserId,
        owner: Result<User, Error>,
        paper_id: &PaperId,
        found: Result<Option<Paper>, Error>,
    ) -> (res: Result<Paper, Error>)
        ensures
            guards_paper(Capability::Read, viewer_id@, owner, paper_id@, found, res),
    {
        guard_paper(Capability::Read, viewer_id, owner, paper_id, found)
    }

    /// Whether `viewer_id` may write the paper `paper_id` of the user that
    /// was looked up, and the paper: see [`guards_paper`].
    pub fn can_viewer_write_paper(
        viewer_id: &UserId,
        owner: Result<User, Error>,
        paper_id: &PaperId,
        found: Result<Option<Paper>, Error>,
    ) -> (res: Result<Paper, Error>)
        ensures
            guards_paper(Capability::Write, viewer_id@, owner, paper_id@, found, res),
    {
        guard_paper(Capability::Write, viewer_id, owner, paper_id, found)
    }

    /// The paper `paper_id` of the user that was looked up, for a viewer
    /// who may read it: see [`guards_paper`].
    pub fn select_paper(
        viewer_id: &UserId,
        owner: Result<User, Error>,
        paper_id: &PaperId,
        found: Result<Option<Paper>, Error>,
    ) -> (res: Result<Paper, Error>)
        ensures
            guards_paper(Capability::Read, viewer_id@, owner, paper_id@, found, res),
    {
        guard_paper(Capability::Read, viewer_id, owner, paper_id, found)
    }

    /// What the store is to write to delete the paper `paper_id` at
    /// `now_msec`, for a viewer who may write it. Where the guard of the
    /// paper fails, as [`guards_paper`] says of a writer, nothing is to be
    /// written and the failure is handed on.
    pub fn delete_paper(
        viewer_id: &UserId,
        owner: Result<User, Error>,
        paper_id: &PaperId,
        found: Result<Option<Paper>, Error>,
        now_msec: u64,
    ) -> (res: Result<PaperDeletion, Error>)
        ensures
            match owner {
                Err(e) => res == Err::<PaperDeletion, Error>(e),
                Ok(owner) => if !permits(viewer_id@, owner.id@) {
                    res matches Err(e) && e@ == denied(Capability::Write)
                } else {
                    match found {
                        Err(e) => res == Err::<PaperDeletion, Error>(e),
                        Ok(found) => if is_paper_of(found, paper_id@, owner.id@) {
                            res matches Ok(deletion) && deletion.paper_id@ == paper_id@
                                && deletion.deleted_at == now_msec
                        } else {
                            res matches Err(e) && e@ == paper_not_found()
                        },
                    }
                },
            },
    {
        match guard_paper(Capability::Write, viewer_id, owner, paper_id, found) {
            Ok(paper) => Ok(PaperDeletion { paper_id: paper.id.into_string(), deleted_at: now_msec }),
            Err(e) => Err(e),
        }
    }

    /// Starts the listing of the papers of the user that was looked up,
    /// for a viewer who may read them: the filter that the store is to
    /// apply to every request, and the first step of the page query.
    /// Deleted papers are listed only where `deleted` asks for them. Anyone
    /// but the user itself is `Forbidden` and no query is started; a failed
    /// lookup stays the failure it is.
    pub fn select_paper_page_of_repository(
        viewer_id: &UserId,
        owner: Result<User, Error>,
        pagination: Pagination<PaperId>,
        order_by: OrderBy<PaperOrderField>,
        deleted: bool,
    ) -> (res: Result<(PaperFilter, PageStep<Paper>), Error>)
        ensures
            match owner {
                Ok(owner) => if permits(viewer_id@, owner.id@) {
                    &&& res matches Ok((filter, step))
                    &&& filter@ == (PaperFilterView { user_id: owner.id@, deleted })
                    &&& step@ == begin_spec::<Paper>(
                        window_of(pagination),
                        field_name(order_by.field),
                        order_by.direction,
                    )
                } else {
                    res matches Err(e) && e@ == denied(Capability::Read)
                },
                Err(e) => res matches Err(out) && out == e,
            },
    {
        let owner = match check_found(Capability::Read, viewer_id, owner) {
            Ok(owner) => owner,
            Err(e) => {
                return Err(e);
            },
        };
        let filter = PaperFilter { user_id: owner.id.into_string(), deleted };
        let step = PageQuery::begin(pagination, paper_order_to_str(order_by));
        Ok((filter, step))
    }
}

} // verus!
