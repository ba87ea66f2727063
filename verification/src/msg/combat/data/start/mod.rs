//! Parts of combat-start notices.
pub mod opponent;
pub mod user;
