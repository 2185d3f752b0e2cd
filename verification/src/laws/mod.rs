//! What the operations of the library promise, stated on their arguments and results.

pub mod auth;
pub mod ingest;
pub mod models;
pub mod plan;
pub mod text;
