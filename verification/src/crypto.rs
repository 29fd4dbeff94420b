//! did:key encoding and signature checking for the P-256 and secp256k1 curves.

pub mod constants;
pub mod did;
pub mod error;
pub mod multibase;
pub mod p256;
pub mod secp256k1;
pub mod types;
pub mod utils;
pub mod verify;
