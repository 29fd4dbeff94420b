//! Protocol constants of did:key identifiers.
use vstd::prelude::*;

verus! {

/// Prefix of every did:key identifier.
pub const DID_KEY_PREFIX: &'static str = "did:key:";

/// Multicodec prefix of a compressed P-256 public key.
pub const P256_DID_PREFIX: [u8; 2] = [0x80, 0x24];

/// Multicodec prefix of a compressed secp256k1 public key.
pub const SECP256K1_DID_PREFIX: [u8; 2] = [0xe7, 0x01];

/// JWT algorithm name of P-256 signatures.
pub const P256_JWT_ALG: &'static str = "ES256";

/// JWT algorithm name of secp256k1 signatures.
pub const SECP256K1_JWT_ALG: &'static str = "ES256K";

/// The characters of `DID_KEY_PREFIX`.
pub open spec fn spec_did_key_prefix() -> Seq<char> {
    seq!['d', 'i', 'd', ':', 'k', 'e', 'y', ':']
}

/// The characters of `P256_JWT_ALG`.
pub open spec fn spec_p256_jwt_alg() -> Seq<char> {
    seq!['E', 'S', '2', '5', '6']
}

/// The characters of `SECP256K1_JWT_ALG`.
pub open spec fn spec_secp256k1_jwt_alg() -> Seq<char> {
    seq!['E', 'S', '2', '5', '6', 'K']
}

/// The bytes of `P256_DID_PREFIX`.
pub open spec fn spec_p256_prefix() -> Seq<u8> {
    seq![0x80u8, 0x24u8]
}

/// The bytes of `SECP256K1_DID_PREFIX`.
pub open spec fn spec_secp256k1_prefix() -> Seq<u8> {
    seq![0xe7u8, 0x01u8]
}

/// `DID_KEY_PREFIX`, with its characters known to the verifier.
pub fn did_key_prefix() -> (s: &'static str)
    ensures
        s@ == spec_did_key_prefix(),
{
    proof {
        reveal_strlit("did:key:");
    }
    let s = "did:key:";
    assert(s@ =~= spec_did_key_prefix());
    s
}

/// `P256_JWT_ALG`, with its characters known to the verifier.
pub fn p256_jwt_alg() -> (s: &'static str)
    ensures
        s@ == spec_p256_jwt_alg(),
{
    proof {
        reveal_strlit("ES256");
    }
    let s = "ES256";
    assert(s@ =~= spec_p256_jwt_alg());
    s
}

/// `SECP256K1_JWT_ALG`, with its characters known to the verifier.
pub fn secp256k1_jwt_alg() -> (s: &'static str)
    ensures
        s@ == spec_secp256k1_jwt_alg(),
{
    proof {
        reveal_strlit("ES256K");
    }
    let s = "ES256K";
    assert(s@ =~= spec_secp256k1_jwt_alg());
    s
}

} // verus!
