//! Ride coordination: the rules for cars and their riders, the roster diff that
//! a car update produces, and the decisions of the worker that turns queued
//! roster changes into notifications.

pub mod api;
pub mod app;
pub mod auth;
pub mod db;
pub mod pings;
pub mod redis;
pub mod roster;
pub mod server;
pub mod text;
pub mod time;
pub mod worker;
