//! Errors of did:key handling and signature checking.
use vstd::prelude::*;
use crate::text::push_char;

verus! {

/// What went wrong, without the text that came with it.
#[derive(Clone, Copy, Debug, PartialEq, Eq, Structural)]
pub enum KeyFault {
    IncorrectPrefix,
    EmptyMultikey,
    InvalidMultibase,
    UnsupportedKeyType,
    ExpectedCompressedKey,
    /// `p256` refused a public key.
    InvalidPublicKey,
    /// `p256` refused a signature.
    InvalidSignature,
    /// `secp256k1` refused a digest that is not 32 bytes long.
    InvalidMessage,
    /// `secp256k1` refused a public key.
    MalformedPublicKey,
    /// `secp256k1` refused a signature.
    MalformedSignature,
    NotP256Key,
    NotSecp256k1Key,
    UnsupportedSignatureAlg,
}

/// An error of did:key handling or signature checking.
#[derive(Debug)]
pub enum CryptoError {
    IncorrectPrefix { did: String },
    EmptyMultikey { did: String },
    /// `multibase` refused a string: `unknown_base` is its first character
    /// where that names no base, `None` where the rest does not decode.
    InvalidMultibase { unknown_base: Option<char> },
    UnsupportedKeyType,
    ExpectedCompressedKey,
    InvalidPublicKey,
    InvalidSignature,
    InvalidMessage,
    MalformedPublicKey,
    MalformedSignature,
    NotP256Key { did: String },
    NotSecp256k1Key { did: String },
    UnsupportedSignatureAlg { alg: String },
}

impl CryptoError {
    /// The kind of the error.
    pub open spec fn fault(&self) -> KeyFault {
        match self {
            CryptoError::IncorrectPrefix { .. } => KeyFault::IncorrectPrefix,
            CryptoError::EmptyMultikey { .. } => KeyFault::EmptyMultikey,
            CryptoError::InvalidMultibase { .. } => KeyFault::InvalidMultibase,
            CryptoError::UnsupportedKeyType => KeyFault::UnsupportedKeyType,
            CryptoError::ExpectedCompressedKey => KeyFault::ExpectedCompressedKey,
            CryptoError::InvalidPublicKey => KeyFault::InvalidPublicKey,
            CryptoError::InvalidSignature => KeyFault::InvalidSignature,
            CryptoError::InvalidMessage => KeyFault::InvalidMessage,
            CryptoError::MalformedPublicKey => KeyFault::MalformedPublicKey,
            CryptoError::MalformedSignature => KeyFault::MalformedSignature,
            CryptoError::NotP256Key { .. } => KeyFault::NotP256Key,
            CryptoError::NotSecp256k1Key { .. } => KeyFault::NotSecp256k1Key,
            CryptoError::UnsupportedSignatureAlg { .. } => KeyFault::UnsupportedSignatureAlg,
        }
    }

    /// The error of a fault that carries no text.
    pub fn from_fault(f: KeyFault) -> (e: CryptoError)
        requires
            f != KeyFault::IncorrectPrefix,
            f != KeyFault::EmptyMultikey,
            f != KeyFault::InvalidMultibase,
            f != KeyFault::NotP256Key,
            f != KeyFault::NotSecp256k1Key,
            f != KeyFault::UnsupportedSignatureAlg,
        ensures
            e.fault() == f,
    {
        match f {
            KeyFault::UnsupportedKeyType => CryptoError::UnsupportedKeyType,
            KeyFault::ExpectedCompressedKey => CryptoError::ExpectedCompressedKey,
            KeyFault::InvalidPublicKey => CryptoError::InvalidPublicKey,
            KeyFault::InvalidSignature => CryptoError::InvalidSignature,
            KeyFault::MalformedPublicKey => CryptoError::MalformedPublicKey,
            KeyFault::MalformedSignature => CryptoError::MalformedSignature,
            _ => CryptoError::InvalidMessage,
        }
    }

    /// The human-readable text of the error.
    pub open spec fn spec_message(&self) -> Seq<char> {
        match self {
            CryptoError::IncorrectPrefix { did } => "Incorrect prefix for did:key: "@ + did@,
            CryptoError::EmptyMultikey { did } => "Empty multikey in did:key: "@ + did@,
            CryptoError::InvalidMultibase { unknown_base: Some(c) } => "Unknown base code: "@ + seq![*c],
            CryptoError::InvalidMultibase { unknown_base: None } => "Invalid base string"@,
            CryptoError::UnsupportedKeyType => "Unsupported key type"@,
            CryptoError::ExpectedCompressedKey => "Expected 33 byte compress pubkey"@,
            CryptoError::InvalidPublicKey => "signature error"@,
            CryptoError::InvalidSignature => "signature error"@,
            CryptoError::InvalidMessage => "message was not 32 bytes (do you need to hash?)"@,
            CryptoError::MalformedPublicKey => "malformed public key"@,
            CryptoError::MalformedSignature => "malformed signature"@,
            CryptoError::NotP256Key { did } => "Not a P-256 did:key: "@ + did@,
            CryptoError::NotSecp256k1Key { did } => "Not a secp256k1 did:key: "@ + did@,
            CryptoError::UnsupportedSignatureAlg { alg } => "Unsupported signature alg: "@ + alg@,
        }
    }

    /// The human-readable text of the error.
    pub fn message(&self) -> (m: String)
        ensures
            m@ == self.spec_message(),
    {
        match self {
            CryptoError::IncorrectPrefix { did } => {
                let mut m = String::from_str("Incorrect prefix for did:key: ");
                m.append(did.as_str());
                m
            },
            CryptoError::EmptyMultikey { did } => {
                let mut m = String::from_str("Empty multikey in did:key: ");
                m.append(did.as_str());
                m
            },
            CryptoError::InvalidMultibase { unknown_base: Some(c) } => {
                let mut m = String::from_str("Unknown base code: ");
                push_char(&mut m, *c);
                m
            },
            CryptoError::InvalidMultibase { unknown_base: None } => String::from_str("Invalid base string"),
            CryptoError::UnsupportedKeyType => String::from_str("Unsupported key type"),
            CryptoError::ExpectedCompressedKey => String::from_str("Expected 33 byte compress pubkey"),
            CryptoError::InvalidPublicKey => String::from_str("signature error"),
            CryptoError::InvalidSignature => String::from_str("signature error"),
            CryptoError::InvalidMessage => String::from_str("message was not 32 bytes (do you need to hash?)"),
            CryptoError::MalformedPublicKey => String::from_str("malformed public key"),
            CryptoError::MalformedSignature => String::from_str("malformed signature"),
            CryptoError::NotP256Key { did } => {
                let mut m = String::from_str("Not a P-256 did:key: ");
                m.append(did.as_str());
                m
            },
            CryptoError::NotSecp256k1Key { did } => {
                let mut m = String::from_str("Not a secp256k1 did:key: ");
                m.append(did.as_str());
                m
            },
            CryptoError::UnsupportedSignatureAlg { alg } => {
                let mut m = String::from_str("Unsupported signature alg: ");
                m.append(alg.as_str());
                m
            },
        }
    }
}

} // verus!
