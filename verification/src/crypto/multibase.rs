//! Multibase decoding and base58btc encoding, through the `multibase` crate.
use vstd::prelude::*;
use crate::crypto::error::CryptoError;

verus! {

/// What `multibase::decode` gives for a string: the decoded bytes, or `None`
/// where it returns an error.
pub uninterp spec fn spec_multibase_decode(s: Seq<char>) -> Option<Seq<u8>>;

/// The base58 (Bitcoin alphabet) text of a byte string, without a multibase code.
pub uninterp spec fn spec_base58btc(bytes: Seq<u8>) -> Seq<char>;

/// Calls `multibase::decode`. Claims that the result is the name
/// `spec_multibase_decode` of the input; that where it reports an unknown base
/// code, that code is the input's first character (the function reads the
/// base code from there); and that an empty input is refused as an invalid
/// base string.
#[verifier::external_body]
pub(crate) fn multibase_decode(s: &str) -> (r: Result<Vec<u8>, Option<char>>)
    ensures
        match r {
            Ok(b) => spec_multibase_decode(s@) == Some(b@),
            Err(code) => spec_multibase_decode(s@) is None
                && (code matches Some(c) ==> s@.len() > 0 && c == s@[0]),
        },
        s@.len() == 0 ==> r matches Err(None),
{
    match ::multibase::decode(s) {
        Ok((_base, data)) => Ok(data),
        Err(::multibase::Error::UnknownBase(c)) => Err(Some(c)),
        Err(::multibase::Error::InvalidBaseString) => Err(None),
    }
}

/// Calls `multibase::encode` with `Base::Base58Btc`. Claims that the result is
/// the code character `z` followed by the base58 text of the input, and that
/// `multibase::decode` gives the input back from it.
#[verifier::external_body]
pub(crate) fn multibase_encode_base58btc(bytes: &[u8]) -> (r: String)
    ensures
        r@ == seq!['z'] + spec_base58btc(bytes@),
        spec_multibase_decode(r@) == Some(bytes@),
{
    ::multibase::encode(::multibase::Base::Base58Btc, bytes)
}

/// Decodes a multibase string into its bytes.
pub fn multibase_to_bytes(mb: String) -> (r: Result<Vec<u8>, CryptoError>)
    ensures
        match r {
            Ok(b) => spec_multibase_decode(mb@) == Some(b@),
            Err(e) => spec_multibase_decode(mb@) is None && e is InvalidMultibase,
        },
        r matches Err(CryptoError::InvalidMultibase { unknown_base: Some(c) }) ==> mb@.len() > 0 && c == mb@[0],
{
    match multibase_decode(mb.as_str()) {
        Ok(data) => Ok(data),
        Err(code) => Err(CryptoError::InvalidMultibase { unknown_base: code }),
    }
}

} // verus!
