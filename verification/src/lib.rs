//! A command-line client library for a log analytics server: the browser
//! based login flow, the request and response rules of the REST interface,
//! the persisted contexts, the name cache and the rendering of log entries.

pub mod address;
pub mod api;
pub mod auth;
pub mod cache;
pub mod cli;
pub mod clock;
pub mod commands;
pub mod config;
pub mod error;
pub mod highlight;
pub mod json;
pub mod text;

pub use cache::Cache;
pub use config::Config;
pub use error::{Error, Result};
