pub mod auth;
pub mod paper;
pub mod user;
