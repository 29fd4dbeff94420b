//! Multikeys and did:key identifiers: parsing and formatting.
use vstd::prelude::*;
use crate::crypto::constants::{
    did_key_prefix, spec_did_key_prefix, spec_p256_jwt_alg, spec_p256_prefix,
    spec_secp256k1_jwt_alg, spec_secp256k1_prefix,
};
use crate::crypto::error::{CryptoError, KeyFault};
use crate::crypto::multibase::{multibase_encode_base58btc, spec_base58btc, spec_multibase_decode};
use crate::crypto::p256;
use crate::crypto::secp256k1;
use crate::crypto::types::{DidKeyPlugin, KeyAlg};
use crate::crypto::utils::{
    bytes_from, extract_multikey, extract_prefixed_bytes, has_prefix, spec_extract_multikey,
    spec_has_prefix,
};
use crate::text::str_eq;

verus! {

/// A public key read from a multikey: its JWT algorithm name and its
/// uncompressed bytes.
#[derive(Clone, Debug)]
pub struct ParsedMultikey {
    pub jwt_alg: String,
    pub key_bytes: Vec<u8>,
}

/// The curve whose multicodec prefix begins `bytes`.
pub open spec fn spec_alg_of_prefixed(bytes: Seq<u8>) -> Option<KeyAlg> {
    if spec_has_prefix(bytes, spec_p256_prefix()) {
        Some(KeyAlg::P256)
    } else if spec_has_prefix(bytes, spec_secp256k1_prefix()) {
        Some(KeyAlg::Secp256k1)
    } else {
        None
    }
}

/// The curve of a JWT algorithm name.
pub open spec fn spec_alg_of_jwt(name: Seq<char>) -> Option<KeyAlg> {
    if name == spec_p256_jwt_alg() {
        Some(KeyAlg::P256)
    } else if name == spec_secp256k1_jwt_alg() {
        Some(KeyAlg::Secp256k1)
    } else {
        None
    }
}

/// Compression of a public key of the given curve.
pub open spec fn spec_compress(alg: KeyAlg, key: Seq<u8>) -> Result<Seq<u8>, KeyFault> {
    match alg {
        KeyAlg::P256 => p256::spec_compress_pubkey(key),
        KeyAlg::Secp256k1 => secp256k1::spec_compress_pubkey(key),
    }
}

/// Decompression of a compressed public key of the given curve.
pub open spec fn spec_decompress(alg: KeyAlg, compressed: Seq<u8>) -> Result<Seq<u8>, KeyFault> {
    match alg {
        KeyAlg::P256 => p256::spec_decompress_pubkey(compressed),
        KeyAlg::Secp256k1 => secp256k1::spec_decompress_pubkey(compressed),
    }
}

/// The curve and uncompressed key that a multikey names.
pub open spec fn spec_parse_multikey(multikey: Seq<char>) -> Result<(KeyAlg, Seq<u8>), KeyFault> {
    match spec_multibase_decode(multikey) {
        None => Err(KeyFault::InvalidMultibase),
        Some(bytes) => match spec_alg_of_prefixed(bytes) {
            None => Err(KeyFault::UnsupportedKeyType),
            Some(alg) => match spec_decompress(alg, bytes.skip(2)) {
                Ok(key) => Ok((alg, key)),
                Err(f) => Err(f),
            },
        },
    }
}

/// The multikey of a public key: `z` and the base58 text of the curve's
/// multicodec prefix followed by the compressed key.
pub open spec fn spec_format_multikey(jwt_alg: Seq<char>, key: Seq<u8>) -> Result<Seq<char>, KeyFault> {
    match spec_alg_of_jwt(jwt_alg) {
        None => Err(KeyFault::UnsupportedKeyType),
        Some(alg) => match spec_compress(alg, key) {
            Err(f) => Err(f),
            Ok(c) => Ok(seq!['z'] + spec_base58btc(alg.spec_prefix() + c)),
        },
    }
}

/// The curve and uncompressed key that a did:key identifier names.
pub open spec fn spec_parse_did_key(did: Seq<char>) -> Result<(KeyAlg, Seq<u8>), KeyFault> {
    match spec_extract_multikey(did) {
        Err(f) => Err(f),
        Ok(multikey) => spec_parse_multikey(multikey),
    }
}

/// The did:key identifier of a public key.
pub open spec fn spec_format_did_key(jwt_alg: Seq<char>, key: Seq<u8>) -> Result<Seq<char>, KeyFault> {
    match spec_format_multikey(jwt_alg, key) {
        Err(f) => Err(f),
        Ok(m) => Ok(spec_did_key_prefix() + m),
    }
}

/// What parsing the did:key of a key gives back: the curve and the
/// uncompressed form of the key's compressed encoding.
pub open spec fn spec_reparsed(jwt_alg: Seq<char>, key: Seq<u8>) -> Result<(KeyAlg, Seq<u8>), KeyFault> {
    let alg = spec_alg_of_jwt(jwt_alg)->Some_0;
    match spec_decompress(alg, spec_compress(alg, key)->Ok_0) {
        Ok(u) => Ok((alg, u)),
        Err(f) => Err(f),
    }
}

/// A parsed key agrees with a curve and key.
pub open spec fn spec_parsed_is(p: ParsedMultikey, v: (KeyAlg, Seq<u8>)) -> bool {
    p.jwt_alg@ == v.0.spec_jwt_alg() && p.key_bytes@ == v.1
}

/// `u` is an uncompressed SEC1 public key: 65 bytes beginning with `0x04`.
pub open spec fn spec_uncompressed_form(u: Seq<u8>) -> bool {
    u.len() == 65 && u[0] == 4
}

/// The compressed key `c` decompresses to an uncompressed key, which is
/// `key` itself where `key` was given uncompressed.
pub open spec fn spec_decompresses_to_key(alg: KeyAlg, c: Seq<u8>, key: Seq<u8>) -> bool {
    spec_decompress(alg, c) matches Ok(u) && spec_uncompressed_form(u)
        && (spec_uncompressed_form(key) ==> u == key)
}

/// `c` is a compressed SEC1 point: 33 bytes with the tag `0x02` or `0x03`.
pub open spec fn spec_compressed_point(c: Seq<u8>) -> bool {
    c.len() == 33 && (c[0] == 2 || c[0] == 3)
}

/// The compressed key `c` decompresses to a key that compresses back to `c`.
pub open spec fn spec_round_trips(alg: KeyAlg, c: Seq<u8>) -> bool {
    spec_decompress(alg, c) matches Ok(u) && spec_compress(alg, u) == Ok::<Seq<u8>, KeyFault>(c)
}

/// The key that a multikey names compresses, and where the key bytes of the
/// multikey are a compressed point, it compresses back to them: compressing the parsed key and putting the
/// curve's prefix before it gives the multikey's decoded bytes.
pub open spec fn spec_recompresses(multikey: Seq<char>) -> bool {
    spec_multibase_decode(multikey) matches Some(b)
        && spec_parse_multikey(multikey) matches Ok((alg, u))
        && spec_compress(alg, u) is Ok
        && (spec_compressed_point(b.skip(2))
            ==> (spec_compress(alg, u) matches Ok(c) && alg.spec_prefix() + c == b))
}

/// Parsing the multikey and formatting its key again gives the same text.
pub open spec fn spec_multikey_round_trips(multikey: Seq<char>) -> bool {
    spec_parse_multikey(multikey) matches Ok((alg, u))
        && spec_format_multikey(alg.spec_jwt_alg(), u) == Ok::<Seq<char>, KeyFault>(multikey)
}

proof fn lemma_prefixed_alg(alg: KeyAlg, c: Seq<u8>)
    ensures
        spec_alg_of_prefixed(alg.spec_prefix() + c) == Some(alg),
{
    let b = alg.spec_prefix() + c;
    assert(b.subrange(0, 2) =~= alg.spec_prefix());
    if alg == KeyAlg::Secp256k1 {
        assert(b[0] != spec_p256_prefix()[0]);
        assert(b.subrange(0, 2)[0] == b[0]);
    }
}

proof fn lemma_jwt_alg_of(alg: KeyAlg)
    ensures
        spec_alg_of_jwt(alg.spec_jwt_alg()) == Some(alg),
{
    assert(spec_p256_jwt_alg().len() != spec_secp256k1_jwt_alg().len());
}

/// The plugin whose multicodec prefix begins `bytes`.
pub fn plugin_for_prefixed_bytes(bytes: &[u8]) -> (r: Option<DidKeyPlugin>)
    ensures
        match r {
            Some(p) => p.wf() && spec_alg_of_prefixed(bytes@) == Some(p.alg),
            None => spec_alg_of_prefixed(bytes@) is None,
        },
{
    let p256_plugin = DidKeyPlugin::for_alg(KeyAlg::P256);
    if has_prefix(bytes, &p256_plugin.prefix) {
        return Some(p256_plugin);
    }
    let secp_plugin = DidKeyPlugin::for_alg(KeyAlg::Secp256k1);
    if has_prefix(bytes, &secp_plugin.prefix) {
        return Some(secp_plugin);
    }
    None
}

/// The plugin whose JWT algorithm name is `jwt_alg`.
pub fn plugin_for_jwt_alg(jwt_alg: &str) -> (r: Option<DidKeyPlugin>)
    ensures
        match r {
            Some(p) => p.wf() && spec_alg_of_jwt(jwt_alg@) == Some(p.alg),
            None => spec_alg_of_jwt(jwt_alg@) is None,
        },
{
    let p256_plugin = DidKeyPlugin::for_alg(KeyAlg::P256);
    if str_eq(p256_plugin.jwt_alg, jwt_alg) {
        return Some(p256_plugin);
    }
    let secp_plugin = DidKeyPlugin::for_alg(KeyAlg::Secp256k1);
    if str_eq(secp_plugin.jwt_alg, jwt_alg) {
        return Some(secp_plugin);
    }
    None
}

/// Decompresses a key of the given curve.
fn decompress_for(alg: KeyAlg, compressed: Vec<u8>) -> (r: Result<Vec<u8>, CryptoError>)
    ensures
        match r {
            Ok(u) => spec_decompress(alg, compressed@) == Ok::<Seq<u8>, KeyFault>(u@),
            Err(e) => spec_decompress(alg, compressed@) == Err::<Seq<u8>, KeyFault>(e.fault()),
        },
        r matches Ok(u) ==> spec_uncompressed_form(u@) && spec_compress(alg, u@) is Ok
            && (spec_compressed_point(compressed@) ==> spec_compress(alg, u@) == Ok::<Seq<u8>, KeyFault>(compressed@)),
{
    match alg {
        KeyAlg::P256 => p256::decompress_pubkey(compressed),
        KeyAlg::Secp256k1 => secp256k1::decompress_pubkey(compressed),
    }
}

/// Compresses a key of the given curve.
fn compress_for(alg: KeyAlg, key: Vec<u8>) -> (r: Result<Vec<u8>, CryptoError>)
    ensures
        match r {
            Ok(c) => spec_compress(alg, key@) == Ok::<Seq<u8>, KeyFault>(c@) && c@.len() == 33,
            Err(e) => spec_compress(alg, key@) == Err::<Seq<u8>, KeyFault>(e.fault()),
        },
        r matches Ok(c) ==> spec_decompresses_to_key(alg, c@, key@) && spec_compressed_point(c@)
            && spec_round_trips(alg, c@),
{
    match alg {
        KeyAlg::P256 => p256::compress_pubkey(key),
        KeyAlg::Secp256k1 => secp256k1::compress_pubkey(key),
    }
}

/// Reads the curve and uncompressed key of a multikey.
pub fn parse_multikey(multikey: String) -> (r: Result<ParsedMultikey, CryptoError>)
    ensures
        match r {
            Ok(p) => spec_parse_multikey(multikey@) is Ok && spec_parsed_is(p, spec_parse_multikey(multikey@)->Ok_0),
            Err(e) => spec_parse_multikey(multikey@) == Err::<(KeyAlg, Seq<u8>), KeyFault>(e.fault()),
        },
        r matches Ok(p) ==> spec_uncompressed_form(p.key_bytes@) && spec_recompresses(multikey@),
{
    let ghost mk = multikey@;
    let prefixed = match extract_prefixed_bytes(multikey) {
        Ok(b) => b,
        Err(e) => return Err(e),
    };
    match plugin_for_prefixed_bytes(prefixed.as_slice()) {
        Some(plugin) => {
            let rest = bytes_from(&prefixed, 2);
            let ghost rest_v = rest@;
            let key_bytes = match decompress_for(plugin.alg, rest) {
                Ok(k) => k,
                Err(e) => return Err(e),
            };
            proof {
                assert(plugin.alg.spec_prefix() + rest_v =~= prefixed@);
                assert(spec_recompresses(mk));
            }
            Ok(ParsedMultikey { jwt_alg: String::from_str(plugin.jwt_alg), key_bytes })
        },
        None => Err(CryptoError::UnsupportedKeyType),
    }
}

/// The multikey of a public key of the curve that `jwt_alg` names.
pub fn format_multikey(jwt_alg: String, key_bytes: Vec<u8>) -> (r: Result<String, CryptoError>)
    ensures
        match r {
            Ok(m) => spec_format_multikey(jwt_alg@, key_bytes@) == Ok::<Seq<char>, KeyFault>(m@),
            Err(e) => spec_format_multikey(jwt_alg@, key_bytes@) == Err::<Seq<char>, KeyFault>(e.fault()),
        },
        r matches Ok(m) ==> {
            let alg = spec_alg_of_jwt(jwt_alg@)->Some_0;
            &&& spec_multibase_decode(m@) == Some(alg.spec_prefix() + spec_compress(alg, key_bytes@)->Ok_0)
            &&& (alg.spec_prefix() + spec_compress(alg, key_bytes@)->Ok_0).len() == 35
            &&& spec_decompresses_to_key(alg, spec_compress(alg, key_bytes@)->Ok_0, key_bytes@)
        },
        r matches Ok(m) ==> spec_multikey_round_trips(m@),
{
    match plugin_for_jwt_alg(jwt_alg.as_str()) {
        Some(plugin) => {
            let mut compressed = match compress_for(plugin.alg, key_bytes) {
                Ok(c) => c,
                Err(e) => return Err(e),
            };
            let mut prefixed: Vec<u8> = vec![plugin.prefix[0], plugin.prefix[1]];
            prefixed.append(&mut compressed);
            assert(prefixed@ =~= plugin.alg.spec_prefix() + spec_compress(plugin.alg, key_bytes@)->Ok_0);
            let m = multibase_encode_base58btc(prefixed.as_slice());
            proof {
                let alg = plugin.alg;
                let c = spec_compress(alg, key_bytes@)->Ok_0;
                lemma_prefixed_alg(alg, c);
                assert((alg.spec_prefix() + c).skip(2) =~= c);
                lemma_jwt_alg_of(alg);
            }
            Ok(m)
        },
        None => Err(CryptoError::UnsupportedKeyType),
    }
}

/// Reads the curve and uncompressed key that a did:key identifier names.
pub fn parse_did_key(did: &String) -> (r: Result<ParsedMultikey, CryptoError>)
    ensures
        match r {
            Ok(p) => spec_parse_did_key(did@) is Ok && spec_parsed_is(p, spec_parse_did_key(did@)->Ok_0),
            Err(e) => spec_parse_did_key(did@) == Err::<(KeyAlg, Seq<u8>), KeyFault>(e.fault()),
        },
        r matches Err(CryptoError::IncorrectPrefix { did: d }) ==> d@ == did@,
        r matches Err(CryptoError::EmptyMultikey { did: d }) ==> d@ == did@,
        r matches Ok(p) ==> spec_uncompressed_form(p.key_bytes@),
{
    let multikey = match extract_multikey(did) {
        Ok(m) => m,
        Err(e) => return Err(e),
    };
    parse_multikey(multikey)
}

/// The did:key identifier of a public key of the curve that `jwt_alg` names.
pub fn format_did_key(jwt_alg: String, key_bytes: Vec<u8>) -> (r: Result<String, CryptoError>)
    ensures
        match r {
            Ok(d) => spec_format_did_key(jwt_alg@, key_bytes@) == Ok::<Seq<char>, KeyFault>(d@),
            Err(e) => spec_format_did_key(jwt_alg@, key_bytes@) == Err::<Seq<char>, KeyFault>(e.fault()),
        },
        r matches Ok(d) ==> d@.subrange(0, 9) == spec_did_key_prefix().push('z'),
        r matches Ok(d) ==> spec_parse_did_key(d@) == spec_reparsed(jwt_alg@, key_bytes@),
        r matches Ok(d) ==> (spec_parse_did_key(d@) matches Ok((a, u))
            && Some(a) == spec_alg_of_jwt(jwt_alg@) && spec_uncompressed_form(u)
            && (spec_uncompressed_form(key_bytes@) ==> u == key_bytes@)),
{
    let multikey = match format_multikey(jwt_alg, key_bytes) {
        Ok(m) => m,
        Err(e) => return Err(e),
    };
    let mut did = String::from_str(did_key_prefix());
    did.append(multikey.as_str());
    proof {
        let alg = spec_alg_of_jwt(jwt_alg@)->Some_0;
        let c = spec_compress(alg, key_bytes@)->Ok_0;
        let bytes = alg.spec_prefix() + c;
        assert(did@.subrange(0, 9) =~= spec_did_key_prefix().push('z'));
        assert(did@.skip(8) =~= multikey@);
        assert(did@.subrange(0, 8) =~= spec_did_key_prefix());
        assert(multikey@.len() >= 1);
        assert(spec_extract_multikey(did@) == Ok::<Seq<char>, KeyFault>(multikey@));
        assert(bytes.subrange(0, 2) =~= alg.spec_prefix());
        assert(bytes.skip(2) =~= c);
        assert(spec_p256_prefix()[0] != spec_secp256k1_prefix()[0]);
        if alg == KeyAlg::Secp256k1 {
            assert(bytes.subrange(0, 2) != spec_p256_prefix());
        }
        assert(spec_alg_of_prefixed(bytes) == Some(alg));
    }
    Ok(did)
}

} // verus!
