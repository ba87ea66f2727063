//! States that messages carry.
pub mod auth;
