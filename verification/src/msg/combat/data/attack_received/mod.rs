//! Parts of attack reports.
pub mod monster;
