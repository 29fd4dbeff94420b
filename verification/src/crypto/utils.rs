//! Taking did:key identifiers and multikeys apart.
use vstd::prelude::*;
use crate::crypto::constants::{did_key_prefix, spec_did_key_prefix};
use crate::crypto::error::{CryptoError, KeyFault};
use crate::crypto::multibase::{multibase_decode, spec_multibase_decode};
use crate::text::{chars_of, seq_starts_with, str_starts_with, string_from_chars};

verus! {

/// The multikey part of a did:key identifier.
pub open spec fn spec_extract_multikey(did: Seq<char>) -> Result<Seq<char>, KeyFault> {
    if !seq_starts_with(did, spec_did_key_prefix()) {
        Err(KeyFault::IncorrectPrefix)
    } else if did.len() == spec_did_key_prefix().len() {
        Err(KeyFault::EmptyMultikey)
    } else {
        Ok(did.skip(spec_did_key_prefix().len() as int))
    }
}

/// `bytes` begins with `prefix`.
pub open spec fn spec_has_prefix(bytes: Seq<u8>, prefix: Seq<u8>) -> bool {
    seq_starts_with(bytes, prefix)
}

/// The multikey of a did:key identifier: what follows `did:key:`.
pub fn extract_multikey(did: &String) -> (r: Result<String, CryptoError>)
    ensures
        match r {
            Ok(m) => spec_extract_multikey(did@) == Ok::<Seq<char>, KeyFault>(m@),
            Err(e) => spec_extract_multikey(did@) == Err::<Seq<char>, KeyFault>(e.fault()),
        },
        r matches Err(CryptoError::IncorrectPrefix { did: d }) ==> d@ == did@,
        r matches Err(CryptoError::EmptyMultikey { did: d }) ==> d@ == did@,
{
    let prefix = did_key_prefix();
    if !str_starts_with(did.as_str(), prefix) {
        return Err(CryptoError::IncorrectPrefix { did: did.clone() });
    }
    let cs = chars_of(did.as_str());
    if cs.len() == 8 {
        return Err(CryptoError::EmptyMultikey { did: did.clone() });
    }
    let m = string_from_chars(&cs, 8);
    assert(m@ =~= did@.skip(8));
    Ok(m)
}

/// The bytes of a multibase-encoded multikey, its multicodec prefix included.
pub fn extract_prefixed_bytes(multikey: String) -> (r: Result<Vec<u8>, CryptoError>)
    ensures
        match r {
            Ok(b) => spec_multibase_decode(multikey@) == Some(b@),
            Err(e) => spec_multibase_decode(multikey@) is None && e is InvalidMultibase,
        },
        r matches Err(CryptoError::InvalidMultibase { unknown_base: Some(c) }) ==> multikey@.len() > 0 && c == multikey@[0],
{
    match multibase_decode(multikey.as_str()) {
        Ok(data) => Ok(data),
        Err(code) => Err(CryptoError::InvalidMultibase { unknown_base: code }),
    }
}

/// Whether `bytes` begins with `prefix`.
pub fn has_prefix(bytes: &[u8], prefix: &[u8]) -> (r: bool)
    ensures
        r == spec_has_prefix(bytes@, prefix@),
{
    if bytes.len() < prefix.len() {
        return false;
    }
    let mut i: usize = 0;
    while i < prefix.len()
        invariant
            prefix@.len() <= bytes@.len(),
            i <= prefix@.len(),
            forall|j: int| 0 <= j < i ==> bytes@[j] == prefix@[j],
        decreases prefix@.len() - i,
    {
        if bytes[i] != prefix[i] {
            assert(bytes@.subrange(0, prefix@.len() as int)[i as int] != prefix@[i as int]);
            return false;
        }
        i = i + 1;
    }
    assert(bytes@.subrange(0, prefix@.len() as int) =~= prefix@);
    true
}

} // verus!

verus! {

/// The bytes `v[from..]`.
pub fn bytes_from(v: &Vec<u8>, from: usize) -> (r: Vec<u8>)
    requires
        from <= v@.len(),
    ensures
        r@ == v@.skip(from as int),
{
    let mut r: Vec<u8> = Vec::new();
    let mut i: usize = from;
    while i < v.len()
        invariant
            from <= i <= v@.len(),
            r@ == v@.subrange(from as int, i as int),
        decreases v@.len() - i,
    {
        r.push(v[i]);
        i = i + 1;
    }
    assert(r@ =~= v@.skip(from as int));
    r
}

} // verus!
