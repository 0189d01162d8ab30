//! The types of the outer boundary, and how they turn into the types of
//! the core and back.

pub mod config;
pub mod context;
pub mod logger;
pub mod models;
pub mod order;
pub mod page_info;
pub mod result;

pub use config::{Config, ConfigAccessToken, ConfigGithubAuth, ConfigGoogleAuth, ConfigStorage};
pub use context::Context;
pub use order::OrderDirection;
pub use page_info::PageInfo;
pub use result::{Error, ErrorKind, Result};
