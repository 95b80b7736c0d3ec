//! Verified core of a small portfolio web site: filename handling,
//! configuration, database row decoding, form assembly and page grouping.

pub mod auth;
pub mod config;
pub mod error;
pub mod form;
pub mod group;
pub mod json;
pub mod laws;
pub mod models;
pub mod paths;
pub mod pictures;
pub mod queries;
pub mod sql;
pub mod text;
