//! Keyset pagination, capability guards and signed tokens for an
//! access-controlled document collection.

pub mod auth;
pub mod auth_service;
pub mod clock;
pub mod cursor;
pub mod encoding;
pub mod graphql;
pub mod guard;
pub mod id;
pub mod json;
pub mod jwt;
pub mod keyset;
pub mod pagination;
pub mod paper;
pub mod paper_service;
pub mod result;
pub mod snapshot;
pub mod store;
pub mod text;
pub mod user;
pub mod user_service;

pub use id::Id;
pub use pagination::{OrderBy, OrderDirection, Pagination, PaginationList};
pub use result::{Error, ErrorKind, Result};
