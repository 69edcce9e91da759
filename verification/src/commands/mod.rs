//! What each command decides, apart from what it reads and prints.

pub mod auth;
pub mod collections;
pub mod common;
pub mod config;
pub mod query;
pub mod resolve;
pub mod schema;
pub mod sources;
pub mod sql;
pub mod table;
pub mod teams;
