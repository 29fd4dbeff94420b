//! The feed generator: its data model, the SQL its feeds run, cursor
//! handling, feed assembly, ingestion of firehose records and request
//! authentication.

pub mod models;
pub mod query;
pub mod sql;
pub mod cursor;
pub mod order;
pub mod feed;
pub mod follows;
pub mod ingest;
pub mod auth;
pub mod oauth;
pub mod oauth_state;
