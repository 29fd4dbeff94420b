//! DID documents, the atproto data they carry, and a memory cache of them.

pub mod atproto_data;
pub mod cache;
pub mod common;
pub mod did_resolver;
pub mod errors;
pub mod handle;
pub mod types;
