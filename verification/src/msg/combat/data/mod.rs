//! Parts that combat messages are made of.
pub mod attack_received;
pub mod end;
pub mod monster;
pub mod start;
pub mod user;

pub use self::monster::Monster;
pub use self::user::User;
