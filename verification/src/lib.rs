//! Verified core of a Bluesky "following" feed generator: did:key handling,
//! DID document interpretation, feed query construction, cursor handling,
//! firehose event classification and request authentication.

pub mod text;
pub mod decimal;
pub mod crypto;
pub mod identity;
pub mod feedgen;
pub mod jetstream;
pub mod janitor;
