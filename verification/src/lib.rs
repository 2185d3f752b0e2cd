//! Decisions of the veteran ingest service: which requests are let in, which
//! account an upload belongs to, and what an upload changes in the store.

pub mod auth;
pub mod auth_common;
pub mod errors;
pub mod http;
pub mod ingest;
pub mod json;
pub mod laws;
pub mod models;
pub mod plan;
pub mod text;
pub mod time;
