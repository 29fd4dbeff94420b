//! secp256k1 public keys and ECDSA signatures, through the `secp256k1` crate.
use vstd::prelude::*;
use crate::crypto::constants::spec_secp256k1_prefix;
use crate::crypto::error::{CryptoError, KeyFault};
use crate::crypto::multibase::spec_multibase_decode;
use crate::crypto::types::{allow_malleable, spec_allow_malleable, VerifyOptions};
use crate::crypto::utils::{
    bytes_from, extract_multikey, extract_prefixed_bytes, has_prefix, spec_extract_multikey,
    spec_has_prefix,
};

verus! {

/// The compressed serialization that `secp256k1` gives of a public key, or
/// `None` where `PublicKey::from_slice` refuses the bytes.
pub uninterp spec fn spec_secp256k1_compressed(key: Seq<u8>) -> Option<Seq<u8>>;

/// The uncompressed serialization that `secp256k1` gives of a public key, or
/// `None` where `PublicKey::from_slice` refuses the bytes.
pub uninterp spec fn spec_secp256k1_uncompressed(key: Seq<u8>) -> Option<Seq<u8>>;

/// `serialize_compact` of the signature that `Signature::from_compact` parses
/// from `sig`, or `None` where parsing fails.
pub uninterp spec fn spec_secp256k1_compact(sig: Seq<u8>) -> Option<Seq<u8>>;

/// The outcome of checking `sig` (compact or DER, as `compact` says) over the
/// 32-byte digest `data` with the key `key`.
pub uninterp spec fn spec_secp256k1_verify(key: Seq<u8>, data: Seq<u8>, sig: Seq<u8>, compact: bool) -> Result<bool, KeyFault>;

/// Calls `PublicKey::from_slice` and `serialize`. Claims that the result is the
/// name `spec_secp256k1_compressed` of the input, that it is 33 bytes long
/// (the return type of `serialize`), that only 33- or 65-byte inputs are
/// accepted (`from_slice` matches on the length), and that it parses back to
/// the same key: its uncompressed serialization is that of the input (65
/// bytes beginning with `0x04`), which for an uncompressed input is the input
/// itself, and which serializes compressed to the result again; the result
/// begins with the tag `0x02` or `0x03` (the parity of y).
#[verifier::external_body]
fn secp256k1_compressed(key: &[u8]) -> (r: Option<Vec<u8>>)
    ensures
        match r {
            Some(c) => spec_secp256k1_compressed(key@) == Some(c@) && c@.len() == 33
                && (c@[0] == 2 || c@[0] == 3)
                && spec_secp256k1_uncompressed(c@) == spec_secp256k1_uncompressed(key@)
                && (spec_secp256k1_uncompressed(key@) matches Some(u) && u.len() == 65 && u[0] == 4
                    && spec_secp256k1_compressed(u) == Some(c@)
                    && (key@.len() == 65 && key@[0] == 4 ==> u == key@)),
            None => spec_secp256k1_compressed(key@) is None,
        },
        key@.len() != 33 && key@.len() != 65 ==> r is None,
{
    match ::secp256k1::PublicKey::from_slice(key) {
        Ok(k) => Some(k.serialize().to_vec()),
        Err(_) => None,
    }
}

/// Calls `PublicKey::from_slice` and `serialize_uncompressed`. Claims that the
/// result is the name `spec_secp256k1_uncompressed` of the input, that it is 65
/// bytes long and begins with the tag `0x04`, that only 33- or 65-byte inputs
/// are accepted, and that it is the same key: serializing it compressed gives
/// back a 33-byte (hence compressed) input.
#[verifier::external_body]
fn secp256k1_uncompressed(key: &[u8]) -> (r: Option<Vec<u8>>)
    ensures
        match r {
            Some(u) => spec_secp256k1_uncompressed(key@) == Some(u@) && u@.len() == 65 && u@[0] == 4
                && (key@.len() == 33 ==> spec_secp256k1_compressed(u@) == Some(key@)),
            None => spec_secp256k1_uncompressed(key@) is None,
        },
        key@.len() != 33 && key@.len() != 65 ==> r is None,
{
    match ::secp256k1::PublicKey::from_slice(key) {
        Ok(k) => Some(k.serialize_uncompressed().to_vec()),
        Err(_) => None,
    }
}

/// Calls `ecdsa::Signature::from_compact` and `serialize_compact`. Claims that
/// the result is the name `spec_secp256k1_compact` of the input, and that an
/// input that is not 64 bytes long is refused (`from_compact` checks it).
#[verifier::external_body]
fn secp256k1_compact(sig: &[u8]) -> (r: Option<Vec<u8>>)
    ensures
        match r {
            Some(c) => spec_secp256k1_compact(sig@) == Some(c@),
            None => spec_secp256k1_compact(sig@) is None,
        },
        sig@.len() != 64 ==> r is None,
{
    match ::secp256k1::ecdsa::Signature::from_compact(sig) {
        Ok(s) => Some(s.serialize_compact().to_vec()),
        Err(_) => None,
    }
}

/// Calls `PublicKey::from_slice`, `Message::from_digest_slice`,
/// `ecdsa::Signature::from_compact` (or `from_der` where `compact` is false) and
/// `Secp256k1::verify_ecdsa`. Claims that the result is the name
/// `spec_secp256k1_verify` of the arguments: a refused key, digest or signature
/// gives the matching fault.
#[verifier::external_body]
fn secp256k1_verify(key: &[u8], data: &[u8], sig: &[u8], compact: bool) -> (r: Result<bool, KeyFault>)
    ensures
        r == spec_secp256k1_verify(key@, data@, sig@, compact),
        r matches Err(f) ==> (f == KeyFault::MalformedPublicKey || f == KeyFault::InvalidMessage
            || f == KeyFault::MalformedSignature),
{
    let pk = ::secp256k1::PublicKey::from_slice(key).map_err(|_| KeyFault::MalformedPublicKey)?;
    let msg = ::secp256k1::Message::from_digest_slice(data).map_err(|_| KeyFault::InvalidMessage)?;
    let parsed = if compact {
        ::secp256k1::ecdsa::Signature::from_compact(sig)
    } else {
        ::secp256k1::ecdsa::Signature::from_der(sig)
    };
    let s = parsed.map_err(|_| KeyFault::MalformedSignature)?;
    Ok(::secp256k1::Secp256k1::verification_only().verify_ecdsa(&msg, &s, &pk).is_ok())
}

/// Compression of a secp256k1 public key.
pub open spec fn spec_compress_pubkey(key: Seq<u8>) -> Result<Seq<u8>, KeyFault> {
    match spec_secp256k1_compressed(key) {
        Some(c) => Ok(c),
        None => Err(KeyFault::MalformedPublicKey),
    }
}

/// Decompression of a compressed secp256k1 public key.
pub open spec fn spec_decompress_pubkey(compressed: Seq<u8>) -> Result<Seq<u8>, KeyFault> {
    if compressed.len() != 33 {
        Err(KeyFault::ExpectedCompressedKey)
    } else {
        match spec_secp256k1_uncompressed(compressed) {
            Some(u) => Ok(u),
            None => Err(KeyFault::MalformedPublicKey),
        }
    }
}

/// The signature is a compact signature that serializes back to itself.
pub open spec fn spec_is_compact_format(sig: Seq<u8>) -> bool {
    spec_secp256k1_compact(sig) == Some(sig)
}

/// Signature check with a raw public key.
pub open spec fn spec_verify_sig(key: Seq<u8>, data: Seq<u8>, sig: Seq<u8>, allow_malleable: bool) -> Result<bool, KeyFault> {
    if !allow_malleable && !spec_is_compact_format(sig) {
        Ok(false)
    } else {
        spec_secp256k1_verify(key, data, sig, spec_is_compact_format(sig))
    }
}

/// Signature check with the key of a secp256k1 did:key.
pub open spec fn spec_verify_did_sig(did: Seq<char>, data: Seq<u8>, sig: Seq<u8>, allow_malleable: bool) -> Result<bool, KeyFault> {
    match spec_extract_multikey(did) {
        Err(f) => Err(f),
        Ok(mk) => match spec_multibase_decode(mk) {
            None => Err(KeyFault::InvalidMultibase),
            Some(b) => if !spec_has_prefix(b, spec_secp256k1_prefix()) {
                Err(KeyFault::NotSecp256k1Key)
            } else {
                spec_verify_sig(b.skip(2), data, sig, allow_malleable)
            },
        },
    }
}

/// The compressed (33-byte) form of a secp256k1 public key. Decompressing it
/// gives the key's uncompressed form: the key itself where it was
/// uncompressed.
pub fn compress_pubkey(pubkey_bytes: Vec<u8>) -> (r: Result<Vec<u8>, CryptoError>)
    ensures
        match r {
            Ok(c) => spec_compress_pubkey(pubkey_bytes@) == Ok::<Seq<u8>, KeyFault>(c@) && c@.len() == 33
                && (c@[0] == 2 || c@[0] == 3),
            Err(e) => spec_compress_pubkey(pubkey_bytes@) == Err::<Seq<u8>, KeyFault>(e.fault()),
        },
        r matches Ok(c) ==> (spec_decompress_pubkey(c@) matches Ok(u) && u.len() == 65 && u[0] == 4
            && spec_compress_pubkey(u) == Ok::<Seq<u8>, KeyFault>(c@)
            && (pubkey_bytes@.len() == 65 && pubkey_bytes@[0] == 4 ==> u == pubkey_bytes@)),
        pubkey_bytes@.len() != 33 && pubkey_bytes@.len() != 65 ==> r is Err,
{
    match secp256k1_compressed(pubkey_bytes.as_slice()) {
        Some(c) => Ok(c),
        None => Err(CryptoError::MalformedPublicKey),
    }
}

/// The uncompressed (65-byte) form of a compressed secp256k1 public key.
pub fn decompress_pubkey(compressed: Vec<u8>) -> (r: Result<Vec<u8>, CryptoError>)
    ensures
        match r {
            Ok(u) => spec_decompress_pubkey(compressed@) == Ok::<Seq<u8>, KeyFault>(u@) && u@.len() == 65,
            Err(e) => spec_decompress_pubkey(compressed@) == Err::<Seq<u8>, KeyFault>(e.fault()),
        },
        r matches Ok(u) ==> u@.len() == 65 && u@[0] == 4
            && spec_compress_pubkey(u@) == Ok::<Seq<u8>, KeyFault>(compressed@),
{
    if compressed.len() != 33 {
        return Err(CryptoError::ExpectedCompressedKey);
    }
    match secp256k1_uncompressed(compressed.as_slice()) {
        Some(u) => Ok(u),
        None => Err(CryptoError::MalformedPublicKey),
    }
}

/// Whether `sig` is a 64-byte compact signature that serializes back to itself.
pub fn is_compact_format(sig: &[u8]) -> (r: bool)
    ensures
        r == spec_is_compact_format(sig@),
        sig@.len() != 64 ==> !r,
{
    match secp256k1_compact(sig) {
        Some(n) => {
            let same = n.len() == sig.len() && has_prefix(n.as_slice(), sig);
            proof {
                if same {
                    assert(n@ =~= sig@);
                } else if n@ == sig@ {
                    assert(n@.subrange(0, sig@.len() as int) =~= sig@);
                }
            }
            same
        },
        None => false,
    }
}

/// Checks `sig` over the 32-byte digest `data` with a raw secp256k1 public key.
/// Unless the options allow it, a signature that is not in compact form is
/// refused as invalid; where allowed, it is read as DER.
pub fn verify_sig(public_key: &[u8], data: &[u8], sig: &[u8], opts: Option<VerifyOptions>) -> (r: Result<bool, CryptoError>)
    ensures
        match r {
            Ok(b) => spec_verify_sig(public_key@, data@, sig@, spec_allow_malleable(opts)) == Ok::<bool, KeyFault>(b),
            Err(e) => spec_verify_sig(public_key@, data@, sig@, spec_allow_malleable(opts)) == Err::<bool, KeyFault>(e.fault()),
        },
        r matches Err(e) ==> (e is MalformedPublicKey || e is InvalidMessage || e is MalformedSignature),
{
    let allow = allow_malleable(opts);
    let compact = is_compact_format(sig);
    if !allow && !compact {
        return Ok(false);
    }
    match secp256k1_verify(public_key, data, sig, compact) {
        Ok(b) => Ok(b),
        Err(f) => Err(CryptoError::from_fault(f)),
    }
}

/// Checks `sig` over `data` with the key of a secp256k1 did:key.
pub fn verify_did_sig(did: &String, data: &[u8], sig: &[u8], opts: Option<VerifyOptions>) -> (r: Result<bool, CryptoError>)
    ensures
        match r {
            Ok(b) => spec_verify_did_sig(did@, data@, sig@, spec_allow_malleable(opts)) == Ok::<bool, KeyFault>(b),
            Err(e) => spec_verify_did_sig(did@, data@, sig@, spec_allow_malleable(opts)) == Err::<bool, KeyFault>(e.fault()),
        },
        r matches Err(CryptoError::NotSecp256k1Key { did: d }) ==> d@ == did@,
        r matches Err(CryptoError::IncorrectPrefix { did: d }) ==> d@ == did@,
        r matches Err(CryptoError::EmptyMultikey { did: d }) ==> d@ == did@,
{
    let multikey = match extract_multikey(did) {
        Ok(m) => m,
        Err(e) => return Err(e),
    };
    let prefixed = match extract_prefixed_bytes(multikey) {
        Ok(b) => b,
        Err(e) => return Err(e),
    };
    let prefix: [u8; 2] = [0xe7, 0x01];
    assert(prefix@ =~= spec_secp256k1_prefix());
    if !has_prefix(prefixed.as_slice(), &prefix) {
        return Err(CryptoError::NotSecp256k1Key { did: did.clone() });
    }
    let key_bytes = bytes_from(&prefixed, 2);
    verify_sig(key_bytes.as_slice(), data, sig, opts)
}

} // verus!
