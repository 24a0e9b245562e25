//! The records that the ride board stores and the rules that guard them.

pub mod car;
pub mod event;
pub mod user;
