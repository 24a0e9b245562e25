//! The first version of the interface.

pub mod auth;
pub mod event;
pub mod user;
