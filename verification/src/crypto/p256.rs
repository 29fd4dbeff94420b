//! P-256 public keys and ECDSA signatures, through the `p256` crate.
use vstd::prelude::*;
use ::p256::ecdsa::signature::Verifier;
use crate::crypto::constants::spec_p256_prefix;
use crate::crypto::error::{CryptoError, KeyFault};
use crate::crypto::multibase::spec_multibase_decode;
use crate::crypto::types::{allow_malleable, spec_allow_malleable, VerifyOptions};
use crate::crypto::utils::{
    bytes_from, extract_multikey, extract_prefixed_bytes, has_prefix, spec_extract_multikey,
    spec_has_prefix,
};

verus! {

/// The compressed SEC1 encoding that `p256` gives of a public key, or `None`
/// where `VerifyingKey::from_sec1_bytes` refuses the bytes.
pub uninterp spec fn spec_p256_compressed(key: Seq<u8>) -> Option<Seq<u8>>;

/// The uncompressed SEC1 encoding that `p256` gives of a public key, or `None`
/// where `VerifyingKey::from_sec1_bytes` refuses the bytes.
pub uninterp spec fn spec_p256_uncompressed(key: Seq<u8>) -> Option<Seq<u8>>;

/// The bytes of `Signature::normalize_s` applied to the signature parsed from
/// `sig`; `None` where parsing fails or `normalize_s` returns `None`.
pub uninterp spec fn spec_p256_normalize_s(sig: Seq<u8>) -> Option<Seq<u8>>;

/// The outcome of checking `sig` over `data` with the key `key`.
pub uninterp spec fn spec_p256_verify(key: Seq<u8>, data: Seq<u8>, sig: Seq<u8>) -> Result<bool, KeyFault>;

/// Calls `VerifyingKey::from_sec1_bytes` and `to_encoded_point(true)`. Claims
/// that the result is the name `spec_p256_compressed` of the input, that a
/// compressed P-256 point takes 33 bytes and begins with the tag `0x02` or
/// `0x03` (the parity of y), and that it encodes the same point as the input:
/// its uncompressed encoding is that of the input (65 bytes beginning with the
/// tag `0x04`), which for an uncompressed input is the input itself, and
/// compressing that uncompressed encoding gives the result again, SEC1
/// encodings of a point in one form being unique.
#[verifier::external_body]
fn p256_compressed(key: &[u8]) -> (r: Option<Vec<u8>>)
    ensures
        match r {
            Some(c) => spec_p256_compressed(key@) == Some(c@) && c@.len() == 33
                && (c@[0] == 2 || c@[0] == 3)
                && spec_p256_uncompressed(c@) == spec_p256_uncompressed(key@)
                && (spec_p256_uncompressed(key@) matches Some(u) && u.len() == 65 && u[0] == 4
                    && spec_p256_compressed(u) == Some(c@)
                    && (key@.len() == 65 && key@[0] == 4 ==> u == key@)),
            None => spec_p256_compressed(key@) is None,
        },
{
    match ::p256::ecdsa::VerifyingKey::from_sec1_bytes(key) {
        Ok(k) => Some(k.to_encoded_point(true).as_bytes().to_vec()),
        Err(_) => None,
    }
}

/// Calls `VerifyingKey::from_sec1_bytes` and `to_encoded_point(false)`. Claims
/// that the result is the name `spec_p256_uncompressed` of the input, that an
/// uncompressed SEC1 point is 65 bytes beginning with the tag `0x04`, and that
/// it encodes the same point, which therefore compresses; where the input is
/// a compressed point (33 bytes
/// with the tag `0x02` or `0x03`), compressing the result gives the input
/// back. Other 33-byte inputs that `sec1` accepts (the compact form, tag
/// `0x05`) compress to a different encoding, so nothing is claimed of them.
#[verifier::external_body]
fn p256_uncompressed(key: &[u8]) -> (r: Option<Vec<u8>>)
    ensures
        match r {
            Some(u) => spec_p256_uncompressed(key@) == Some(u@) && u@.len() == 65 && u@[0] == 4
                && spec_p256_compressed(u@) is Some
                && (key@.len() == 33 && (key@[0] == 2 || key@[0] == 3) ==> spec_p256_compressed(u@) == Some(key@)),
            None => spec_p256_uncompressed(key@) is None,
        },
{
    match ::p256::ecdsa::VerifyingKey::from_sec1_bytes(key) {
        Ok(k) => Some(k.to_encoded_point(false).as_bytes().to_vec()),
        Err(_) => None,
    }
}

/// Calls `Signature::try_from` and `normalize_s`. Claims that the result is the
/// name `spec_p256_normalize_s` of the input, and that a signature that is not
/// 64 bytes long is refused (`Signature::from_slice` checks the length).
#[verifier::external_body]
fn p256_normalize_s(sig: &[u8]) -> (r: Option<Vec<u8>>)
    ensures
        match r {
            Some(n) => spec_p256_normalize_s(sig@) == Some(n@),
            None => spec_p256_normalize_s(sig@) is None,
        },
        sig@.len() != 64 ==> r is None,
{
    match ::p256::ecdsa::Signature::try_from(sig) {
        Ok(s) => s.normalize_s().map(|n| n.to_vec()),
        Err(_) => None,
    }
}

/// Calls `VerifyingKey::from_sec1_bytes`, `Signature::try_from` and
/// `Verifier::verify`. Claims that the result is the name `spec_p256_verify`
/// of the arguments: a refused key or signature gives the matching fault.
#[verifier::external_body]
fn p256_verify(key: &[u8], data: &[u8], sig: &[u8]) -> (r: Result<bool, KeyFault>)
    ensures
        r == spec_p256_verify(key@, data@, sig@),
        r matches Err(f) ==> f == KeyFault::InvalidPublicKey || f == KeyFault::InvalidSignature,
{
    let vk = match ::p256::ecdsa::VerifyingKey::from_sec1_bytes(key) {
        Ok(k) => k,
        Err(_) => return Err(KeyFault::InvalidPublicKey),
    };
    let s = match ::p256::ecdsa::Signature::try_from(sig) {
        Ok(s) => s,
        Err(_) => return Err(KeyFault::InvalidSignature),
    };
    Ok(vk.verify(data, &s).is_ok())
}

/// Compression of a P-256 public key.
pub open spec fn spec_compress_pubkey(key: Seq<u8>) -> Result<Seq<u8>, KeyFault> {
    match spec_p256_compressed(key) {
        Some(c) => Ok(c),
        None => Err(KeyFault::InvalidPublicKey),
    }
}

/// Decompression of a compressed P-256 public key.
pub open spec fn spec_decompress_pubkey(compressed: Seq<u8>) -> Result<Seq<u8>, KeyFault> {
    if compressed.len() != 33 {
        Err(KeyFault::ExpectedCompressedKey)
    } else {
        match spec_p256_uncompressed(compressed) {
            Some(u) => Ok(u),
            None => Err(KeyFault::InvalidPublicKey),
        }
    }
}

/// The signature is in the form that its low-S normalization gives.
pub open spec fn spec_is_compact_format(sig: Seq<u8>) -> bool {
    spec_p256_normalize_s(sig) == Some(sig)
}

/// Signature check with a raw public key.
pub open spec fn spec_verify_sig(key: Seq<u8>, data: Seq<u8>, sig: Seq<u8>, allow_malleable: bool) -> Result<bool, KeyFault> {
    if !allow_malleable && !spec_is_compact_format(sig) {
        Ok(false)
    } else {
        spec_p256_verify(key, data, sig)
    }
}

/// Signature check with the key of a P-256 did:key.
pub open spec fn spec_verify_did_sig(did: Seq<char>, data: Seq<u8>, sig: Seq<u8>, allow_malleable: bool) -> Result<bool, KeyFault> {
    match spec_extract_multikey(did) {
        Err(f) => Err(f),
        Ok(mk) => match spec_multibase_decode(mk) {
            None => Err(KeyFault::InvalidMultibase),
            Some(b) => if !spec_has_prefix(b, spec_p256_prefix()) {
                Err(KeyFault::NotP256Key)
            } else {
                spec_verify_sig(b.skip(2), data, sig, allow_malleable)
            },
        },
    }
}

/// The compressed form of a P-256 public key: 33 bytes with the tag `0x02`
/// or `0x03`. Decompressing it gives the key's uncompressed form (the key
/// itself where it was uncompressed), which compresses back to it.
pub fn compress_pubkey(pubkey_bytes: Vec<u8>) -> (r: Result<Vec<u8>, CryptoError>)
    ensures
        match r {
            Ok(c) => spec_compress_pubkey(pubkey_bytes@) == Ok::<Seq<u8>, KeyFault>(c@) && c@.len() == 33
                && (c@[0] == 2 || c@[0] == 3),
            Err(e) => spec_compress_pubkey(pubkey_bytes@) == Err::<Seq<u8>, KeyFault>(e.fault()),
        },
        r matches Ok(c) ==> (spec_decompress_pubkey(c@) matches Ok(u) && u.len() == 65 && u[0] == 4
            && spec_compress_pubkey(u) == Ok::<Seq<u8>, KeyFault>(c@)
            && (pubkey_bytes@.len() == 65 && pubkey_bytes@[0] == 4 ==> u == pubkey_bytes@)),
{
    match p256_compressed(pubkey_bytes.as_slice()) {
        Some(c) => Ok(c),
        None => Err(CryptoError::InvalidPublicKey),
    }
}

/// The uncompressed form of a compressed P-256 public key. Where the input
/// is a compressed point (tag `0x02` or `0x03`), compressing the result gives
/// the input back.
pub fn decompress_pubkey(compressed: Vec<u8>) -> (r: Result<Vec<u8>, CryptoError>)
    ensures
        match r {
            Ok(u) => spec_decompress_pubkey(compressed@) == Ok::<Seq<u8>, KeyFault>(u@),
            Err(e) => spec_decompress_pubkey(compressed@) == Err::<Seq<u8>, KeyFault>(e.fault()),
        },
        r matches Ok(u) ==> u@.len() == 65 && u@[0] == 4 && spec_compress_pubkey(u@) is Ok
            && (compressed@[0] == 2 || compressed@[0] == 3 ==> spec_compress_pubkey(u@) == Ok::<Seq<u8>, KeyFault>(compressed@)),
{
    if compressed.len() != 33 {
        return Err(CryptoError::ExpectedCompressedKey);
    }
    match p256_uncompressed(compressed.as_slice()) {
        Some(u) => Ok(u),
        None => Err(CryptoError::InvalidPublicKey),
    }
}

/// Whether `sig` is a 64-byte signature equal to its low-S normalization.
pub fn is_compact_format(sig: &[u8]) -> (r: bool)
    ensures
        r == spec_is_compact_format(sig@),
        sig@.len() != 64 ==> !r,
{
    match p256_normalize_s(sig) {
        Some(n) => {
            let same = n.len() == sig.len() && has_prefix(n.as_slice(), sig);
            proof {
                if same {
                    assert(n@ =~= sig@);
                } else if n@ == sig@ {
                    assert(n@.subrange(0, sig@.len() as int) =~= sig@);
                }
            }
            same
        },
        None => false,
    }
}

/// Checks `sig` over `data` with a raw P-256 public key. Unless the options
/// allow it, a signature that is not in compact form is refused as invalid.
pub fn verify_sig(public_key: &[u8], data: &[u8], sig: &[u8], opts: Option<VerifyOptions>) -> (r: Result<bool, CryptoError>)
    ensures
        match r {
            Ok(b) => spec_verify_sig(public_key@, data@, sig@, spec_allow_malleable(opts)) == Ok::<bool, KeyFault>(b),
            Err(e) => spec_verify_sig(public_key@, data@, sig@, spec_allow_malleable(opts)) == Err::<bool, KeyFault>(e.fault()),
        },
        r matches Err(e) ==> (e is InvalidPublicKey || e is InvalidSignature),
{
    let allow = allow_malleable(opts);
    if !allow && !is_compact_format(sig) {
        return Ok(false);
    }
    match p256_verify(public_key, data, sig) {
        Ok(b) => Ok(b),
        Err(f) => Err(CryptoError::from_fault(f)),
    }
}

/// Checks `sig` over `data` with the key of a P-256 did:key.
pub fn verify_did_sig(did: &String, data: &[u8], sig: &[u8], opts: Option<VerifyOptions>) -> (r: Result<bool, CryptoError>)
    ensures
        match r {
            Ok(b) => spec_verify_did_sig(did@, data@, sig@, spec_allow_malleable(opts)) == Ok::<bool, KeyFault>(b),
            Err(e) => spec_verify_did_sig(did@, data@, sig@, spec_allow_malleable(opts)) == Err::<bool, KeyFault>(e.fault()),
        },
        r matches Err(CryptoError::NotP256Key { did: d }) ==> d@ == did@,
        r matches Err(CryptoError::IncorrectPrefix { did: d }) ==> d@ == did@,
        r matches Err(CryptoError::EmptyMultikey { did: d }) ==> d@ == did@,
{
    let multikey = match extract_multikey(did) {
        Ok(m) => m,
        Err(e) => return Err(e),
    };
    let prefixed = match extract_prefixed_bytes(multikey) {
        Ok(b) => b,
        Err(e) => return Err(e),
    };
    let prefix: [u8; 2] = [0x80, 0x24];
    assert(prefix@ =~= spec_p256_prefix());
    if !has_prefix(prefixed.as_slice(), &prefix) {
        return Err(CryptoError::NotP256Key { did: did.clone() });
    }
    let key_bytes = bytes_from(&prefixed, 2);
    verify_sig(key_bytes.as_slice(), data, sig, opts)
}

} // verus!
