//! Signature checking with the key that a did:key identifier names.
use vstd::prelude::*;
use crate::crypto::did::{parse_did_key, plugin_for_jwt_alg, spec_parse_did_key};
use crate::crypto::constants::{spec_p256_jwt_alg, spec_secp256k1_jwt_alg};
use crate::crypto::error::{CryptoError, KeyFault};
use crate::crypto::p256;
use crate::crypto::secp256k1;
use crate::crypto::types::{spec_allow_malleable, KeyAlg, VerifyOptions};

verus! {

/// Signature check with the key of a did:key of either curve.
pub open spec fn spec_verify_signature(did_key: Seq<char>, data: Seq<u8>, sig: Seq<u8>, allow_malleable: bool) -> Result<bool, KeyFault> {
    match spec_parse_did_key(did_key) {
        Err(f) => Err(f),
        Ok(parsed) => match parsed.0 {
            KeyAlg::P256 => p256::spec_verify_did_sig(did_key, data, sig, allow_malleable),
            KeyAlg::Secp256k1 => secp256k1::spec_verify_did_sig(did_key, data, sig, allow_malleable),
        },
    }
}

/// Checks `sig` over `data` with the key that `did_key` names, by the rules of
/// the key's curve.
pub fn verify_signature(did_key: &String, data: &[u8], sig: &[u8], opts: Option<VerifyOptions>) -> (r: Result<bool, CryptoError>)
    ensures
        match r {
            Ok(b) => spec_verify_signature(did_key@, data@, sig@, spec_allow_malleable(opts)) == Ok::<bool, KeyFault>(b),
            Err(e) => spec_verify_signature(did_key@, data@, sig@, spec_allow_malleable(opts)) == Err::<bool, KeyFault>(e.fault()),
        },
        r matches Err(CryptoError::IncorrectPrefix { did: d }) ==> d@ == did_key@,
        r matches Err(CryptoError::EmptyMultikey { did: d }) ==> d@ == did_key@,
{
    let parsed = match parse_did_key(did_key) {
        Ok(p) => p,
        Err(e) => return Err(e),
    };
    proof {
        assert(spec_secp256k1_jwt_alg().len() != spec_p256_jwt_alg().len());
    }
    match plugin_for_jwt_alg(parsed.jwt_alg.as_str()) {
        None => Err(CryptoError::UnsupportedSignatureAlg { alg: parsed.jwt_alg }),
        Some(plugin) => match plugin.alg {
            KeyAlg::P256 => p256::verify_did_sig(did_key, data, sig, opts),
            KeyAlg::Secp256k1 => secp256k1::verify_did_sig(did_key, data, sig, opts),
        },
    }
}

} // verus!
