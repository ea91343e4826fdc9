//! A relay that keeps a query session against a line-oriented server console,
//! watches client enter/leave events and turns them into notification text.

pub mod text;
pub mod query;
pub mod records;
pub mod codec;
pub mod cache;
pub mod events;
pub mod frame;
pub mod session;
pub mod observer;
pub mod config;
pub mod laws;
