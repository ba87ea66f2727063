//! Parts of combat-end notices.
pub mod stats;
