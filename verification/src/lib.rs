//! The message layer and request logic of a small game server: a slab-like
//! store, MessagePack values and the messages built on them, and what the
//! server answers to each message.
pub mod store;
pub mod value;
pub mod error;
pub mod convert;
pub mod fields;
pub mod msg;
pub mod handlers;
pub mod event;
pub mod conn;
