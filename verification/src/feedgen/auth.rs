//! Request authentication: the API key of the queue endpoints, JWTs of feed
//! requests, and the session tokens of the settings site.
use vstd::prelude::*;
use crate::crypto::error::CryptoError;
use crate::crypto::verify::{spec_verify_signature, verify_signature};
use crate::feedgen::models::{InternalErrorCode, InternalErrorMessageResponse, JwtParts};
use crate::text::{chars_of, seq_starts_with, str_eq, str_starts_with, string_from_chars};
use vstd::utf8::{decode_utf8, encode_utf8, valid_utf8};
use ::base64::Engine;
use ::hmac::Mac;
use ::sha2::Digest;

verus! {

/// What `base64`'s `URL_SAFE_NO_PAD` engine decodes from a text, or `None`
/// where it refuses the text.
pub uninterp spec fn spec_b64url_decode(s: Seq<char>) -> Option<Seq<u8>>;

/// What `base64`'s `STANDARD_NO_PAD` engine decodes from a text, or `None`
/// where it refuses the text.
pub uninterp spec fn spec_b64std_decode(s: Seq<char>) -> Option<Seq<u8>>;

/// The text `base64`'s `URL_SAFE_NO_PAD` engine writes for bytes.
pub uninterp spec fn spec_b64url_encode(b: Seq<u8>) -> Seq<char>;

/// The text that `std::str::from_utf8` reads from bytes, or `None` where
/// they are not UTF-8.
pub open spec fn spec_utf8_decode(b: Seq<u8>) -> Option<Seq<char>> {
    if valid_utf8(b) { Some(decode_utf8(b)) } else { None }
}

/// The SHA-256 digest of bytes.
pub uninterp spec fn spec_sha256(b: Seq<u8>) -> Seq<u8>;

/// The HMAC-SHA256 tag of a message under a key.
pub uninterp spec fn spec_hmac_sha256(key: Seq<u8>, msg: Seq<u8>) -> Seq<u8>;

/// Calls `URL_SAFE_NO_PAD.decode`. Claims that the result is the name
/// `spec_b64url_decode` of the input.
#[verifier::external_body]
fn b64url_decode(s: &str) -> (r: Option<Vec<u8>>)
    ensures
        match r {
            Some(b) => spec_b64url_decode(s@) == Some(b@),
            None => spec_b64url_decode(s@) is None,
        },
{
    match ::base64::engine::general_purpose::URL_SAFE_NO_PAD.decode(s) {
        Ok(b) => Some(b),
        Err(_) => None,
    }
}

/// Calls `STANDARD_NO_PAD.decode`. Claims that the result is the name
/// `spec_b64std_decode` of the input.
#[verifier::external_body]
fn b64std_decode(s: &str) -> (r: Option<Vec<u8>>)
    ensures
        match r {
            Some(b) => spec_b64std_decode(s@) == Some(b@),
            None => spec_b64std_decode(s@) is None,
        },
{
    match ::base64::engine::general_purpose::STANDARD_NO_PAD.decode(s) {
        Ok(b) => Some(b),
        Err(_) => None,
    }
}

/// Calls `URL_SAFE_NO_PAD.encode`. Claims that the result is the name
/// `spec_b64url_encode` of the input, that the same engine decodes the input
/// back from it, and that it holds no `.` (the URL-safe alphabet is letters,
/// digits, `-` and `_`, and this engine writes no padding).
#[verifier::external_body]
fn b64url_encode(b: &[u8]) -> (r: String)
    ensures
        r@ == spec_b64url_encode(b@),
        spec_b64url_decode(r@) == Some(b@),
        forall|i: int| 0 <= i < r@.len() ==> r@[i] != '.',
{
    ::base64::engine::general_purpose::URL_SAFE_NO_PAD.encode(b)
}

/// Calls `std::str::from_utf8`. Claims that it reads text exactly from
/// well-formed UTF-8 (as its documentation says), and that the text is what
/// those bytes encode.
#[verifier::external_body]
fn utf8_decode(b: &[u8]) -> (r: Option<String>)
    ensures
        match r {
            Some(s) => spec_utf8_decode(b@) == Some(s@),
            None => spec_utf8_decode(b@) is None,
        },
{
    match std::str::from_utf8(b) {
        Ok(s) => Some(s.to_string()),
        Err(_) => None,
    }
}

/// Calls `sha2::Sha256::digest`. Claims that the result is the name
/// `spec_sha256` of the input and is 32 bytes long.
#[verifier::external_body]
fn sha256(b: &[u8]) -> (r: Vec<u8>)
    ensures
        r@ == spec_sha256(b@),
        r@.len() == 32,
{
    ::sha2::Sha256::digest(b).to_vec()
}

/// Computes an HMAC-SHA256 tag with `hmac::Hmac::<Sha256>`: `new_from_slice`
/// with the key, `update` with the message, `finalize`. Claims that the tag
/// is the name `spec_hmac_sha256` of key and message; `new_from_slice`
/// accepts keys of every length.
#[verifier::external_body]
fn hmac_sha256(key: &[u8], msg: &[u8]) -> (r: Option<Vec<u8>>)
    ensures
        r is Some,
        match r {
            Some(t) => t@ == spec_hmac_sha256(key@, msg@),
            None => true,
        },
{
    match ::hmac::Hmac::<::sha2::Sha256>::new_from_slice(key) {
        Ok(mut mac) => {
            mac.update(msg);
            Some(mac.finalize().into_bytes().to_vec())
        },
        Err(_) => None,
    }
}

/// An HMAC-SHA256 tag.
fn hmac_tag(key: &[u8], msg: &[u8]) -> (r: Vec<u8>)
    ensures
        r@ == spec_hmac_sha256(key@, msg@),
{
    match hmac_sha256(key, msg) {
        Some(t) => t,
        None => Vec::new(),
    }
}

/// Where the first `c` of `s` stands.
pub open spec fn spec_find(s: Seq<char>, c: char) -> Option<int>
    decreases s.len(),
{
    if s.len() == 0 {
        None
    } else if s[0] == c {
        Some(0)
    } else {
        match spec_find(s.skip(1), c) {
            Some(p) => Some(p + 1),
            None => None,
        }
    }
}

/// The three dot-separated parts of a JWT, where it has exactly three.
pub open spec fn spec_jwt_segments(jwt: Seq<char>) -> Option<(Seq<char>, Seq<char>, Seq<char>)> {
    match spec_find(jwt, '.') {
        None => None,
        Some(a) => {
            let rest = jwt.skip(a + 1);
            match spec_find(rest, '.') {
                None => None,
                Some(b) => {
                    let last = rest.skip(b + 1);
                    if spec_find(last, '.') is Some {
                        None
                    } else {
                        Some((jwt.take(a), rest.take(b), last))
                    }
                },
            }
        },
    }
}

proof fn lemma_find(s: Seq<char>, c: char, p: int)
    requires
        0 <= p <= s.len(),
        p == s.len() || s[p] == c,
        forall|j: int| 0 <= j < p ==> s[j] != c,
    ensures
        spec_find(s, c) == if p == s.len() { None } else { Some(p) },
    decreases p,
{
    if p > 0 {
        assert forall|j: int| 0 <= j < p - 1 implies s.skip(1)[j] != c by {
            assert(s.skip(1)[j] == s[j + 1]);
        }
        lemma_find(s.skip(1), c, p - 1);
    }
}

/// Where the first `c` of `v[from..]` stands, counted from `from`.
fn find_from(v: &Vec<char>, from: usize, c: char) -> (r: usize)
    requires
        from <= v@.len(),
    ensures
        r <= v@.len() - from,
        spec_find(v@.skip(from as int), c) == if r == v@.len() - from { None } else { Some(r as int) },
{
    let mut i: usize = from;
    while i < v.len() && v[i] != c
        invariant
            from <= i <= v@.len(),
            forall|j: int| from <= j < i ==> v@[j] != c,
        decreases v@.len() - i,
    {
        i = i + 1;
    }
    proof {
        let s = v@.skip(from as int);
        assert forall|j: int| 0 <= j < i - from implies s[j] != c by {
            assert(s[j] == v@[from + j]);
        }
        lemma_find(s, c, i - from);
    }
    i - from
}

/// The characters `v[from..to]`.
fn chars_range(v: &Vec<char>, from: usize, to: usize) -> (s: String)
    requires
        from <= to <= v@.len(),
    ensures
        s@ == v@.subrange(from as int, to as int),
{
    let mut w: Vec<char> = Vec::new();
    let mut i: usize = from;
    while i < to
        invariant
            from <= i <= to <= v@.len(),
            w@ == v@.subrange(from as int, i as int),
        decreases to - i,
    {
        w.push(v[i]);
        i = i + 1;
    }
    string_from_chars(&w, 0)
}

/// The three dot-separated parts of a JWT.
pub struct JwtSegments {
    pub header: String,
    pub payload: String,
    pub signature: String,
}

/// The three dot-separated parts of a JWT, where it has exactly three.
pub fn split_jwt(jwt: &str) -> (r: Option<JwtSegments>)
    ensures
        match spec_jwt_segments(jwt@) {
            Some((h, p, s)) => r matches Some(seg) && seg.header@ == h && seg.payload@ == p && seg.signature@ == s,
            None => r is None,
        },
{
    let cs = chars_of(jwt);
    let n = cs.len();
    let a = find_from(&cs, 0, '.');
    assert(cs@.skip(0) =~= jwt@);
    if a == n {
        return None;
    }
    let b = find_from(&cs, a + 1, '.');
    assert(cs@.skip(a + 1) =~= jwt@.skip(a + 1));
    if b == n - (a + 1) {
        return None;
    }
    let from_c = a + 1 + b + 1;
    let c = find_from(&cs, from_c, '.');
    assert(cs@.skip(from_c as int) =~= jwt@.skip(a + 1).skip(b + 1));
    if c != n - from_c {
        return None;
    }
    let header = chars_range(&cs, 0, a);
    let payload = chars_range(&cs, a + 1, a + 1 + b);
    let signature = chars_range(&cs, from_c, n);
    assert(header@ =~= jwt@.take(a as int));
    assert(payload@ =~= jwt@.skip(a + 1).take(b as int));
    assert(signature@ =~= jwt@.skip(a + 1).skip(b + 1));
    Some(JwtSegments { header, payload, signature })
}

/// The text that the URL-safe base64 `s` encodes, where it encodes UTF-8.
pub fn decode_url_json(s: &str) -> (r: Option<String>)
    ensures
        match spec_b64url_decode(s@) {
            Some(b) => match spec_utf8_decode(b) {
                Some(t) => r matches Some(x) && x@ == t,
                None => r is None,
            },
            None => r is None,
        },
{
    match b64url_decode(s) {
        Some(b) => utf8_decode(b.as_slice()),
        None => None,
    }
}

/// The bytes of a JWT part: URL-safe base64, or else standard base64, both
/// without padding.
pub open spec fn spec_decode_segment(s: Seq<char>) -> Option<Seq<u8>> {
    match spec_b64url_decode(s) {
        Some(b) => Some(b),
        None => spec_b64std_decode(s),
    }
}

/// The bytes of a JWT part.
pub fn decode_segment(s: &str) -> (r: Option<Vec<u8>>)
    ensures
        match r {
            Some(b) => spec_decode_segment(s@) == Some(b@),
            None => spec_decode_segment(s@) is None,
        },
{
    match b64url_decode(s) {
        Some(b) => Some(b),
        None => b64std_decode(s),
    }
}

/// Why a JWT is refused.
#[derive(Debug)]
pub enum JwtError {
    PoorlyFormatted,
    DecodeHeader,
    ParseHeader,
    UnsupportedAlgorithm(String),
    DecodePayload,
    ParsePayload,
    ClockBeforeEpoch,
    Expired,
    AudienceMismatch,
    DecodeSignature,
    ResolveFailed(String),
    NoResolver,
    SignatureError(CryptoError),
    VerificationFailed,
    SecretMissing,
    SerializePayload,
}

impl JwtError {
    /// The human-readable text of the error.
    pub open spec fn spec_message(&self) -> Seq<char> {
        match self {
            JwtError::PoorlyFormatted => "poorly formatted jwt"@,
            JwtError::DecodeHeader => "error decoding header"@,
            JwtError::ParseHeader => "error parsing header"@,
            JwtError::UnsupportedAlgorithm(alg) => "unsupported algorithm: "@ + alg@,
            JwtError::DecodePayload => "error decoding payload"@,
            JwtError::ParsePayload => "error parsing payload"@,
            JwtError::ClockBeforeEpoch => "system time is before UNIX epoch"@,
            JwtError::Expired => "jwt expired"@,
            JwtError::AudienceMismatch => "jwt audience does not match service did"@,
            JwtError::DecodeSignature => "error decoding signature"@,
            JwtError::ResolveFailed(e) => "failed to resolve DID: "@ + e@,
            JwtError::NoResolver => "cannot verify ES256K/ES256 JWT: id_resolver required for non-did:key issuer"@,
            JwtError::SignatureError(e) => "signature verification error: "@ + e.spec_message(),
            JwtError::VerificationFailed => "jwt signature verification failed"@,
            JwtError::SecretMissing => "JWT_SECRET environment variable not set"@,
            JwtError::SerializePayload => "error serializing payload"@,
        }
    }

    /// The human-readable text of the error.
    pub fn message(&self) -> (m: String)
        ensures
            m@ == self.spec_message(),
    {
        match self {
            JwtError::PoorlyFormatted => String::from_str("poorly formatted jwt"),
            JwtError::DecodeHeader => String::from_str("error decoding header"),
            JwtError::ParseHeader => String::from_str("error parsing header"),
            JwtError::UnsupportedAlgorithm(alg) => {
                let mut m = String::from_str("unsupported algorithm: ");
                m.append(alg.as_str());
                m
            },
            JwtError::DecodePayload => String::from_str("error decoding payload"),
            JwtError::ParsePayload => String::from_str("error parsing payload"),
            JwtError::ClockBeforeEpoch => String::from_str("system time is before UNIX epoch"),
            JwtError::Expired => String::from_str("jwt expired"),
            JwtError::AudienceMismatch => String::from_str("jwt audience does not match service did"),
            JwtError::DecodeSignature => String::from_str("error decoding signature"),
            JwtError::ResolveFailed(e) => {
                let mut m = String::from_str("failed to resolve DID: ");
                m.append(e.as_str());
                m
            },
            JwtError::NoResolver => String::from_str(
                "cannot verify ES256K/ES256 JWT: id_resolver required for non-did:key issuer",
            ),
            JwtError::SignatureError(e) => {
                let mut m = String::from_str("signature verification error: ");
                let t = e.message();
                m.append(t.as_str());
                m
            },
            JwtError::VerificationFailed => String::from_str("jwt signature verification failed"),
            JwtError::SecretMissing => String::from_str("JWT_SECRET environment variable not set"),
            JwtError::SerializePayload => String::from_str("error serializing payload"),
        }
    }
}

/// The JSON text of a JWT part.
pub open spec fn spec_segment_text(s: Seq<char>) -> Option<Seq<char>> {
    match spec_decode_segment(s) {
        Some(b) => spec_utf8_decode(b),
        None => None,
    }
}

/// The JSON text of a JWT's header; the decoding or parsing error where it
/// has none.
pub fn header_json(seg: &JwtSegments) -> (r: Result<String, JwtError>)
    ensures
        match r {
            Ok(t) => spec_segment_text(seg.header@) == Some(t@),
            Err(e) => spec_segment_text(seg.header@) is None
                && (e is DecodeHeader <==> spec_decode_segment(seg.header@) is None)
                && (e is DecodeHeader || e is ParseHeader),
        },
{
    match decode_segment(seg.header.as_str()) {
        None => Err(JwtError::DecodeHeader),
        Some(b) => match utf8_decode(b.as_slice()) {
            Some(t) => Ok(t),
            None => Err(JwtError::ParseHeader),
        },
    }
}

/// The JSON text of a JWT's payload; the decoding or parsing error where it
/// has none.
pub fn payload_json(seg: &JwtSegments) -> (r: Result<String, JwtError>)
    ensures
        match r {
            Ok(t) => spec_segment_text(seg.payload@) == Some(t@),
            Err(e) => spec_segment_text(seg.payload@) is None
                && (e is DecodePayload <==> spec_decode_segment(seg.payload@) is None)
                && (e is DecodePayload || e is ParsePayload),
        },
{
    match decode_segment(seg.payload.as_str()) {
        None => Err(JwtError::DecodePayload),
        Some(b) => match utf8_decode(b.as_slice()) {
            Some(t) => Ok(t),
            None => Err(JwtError::ParsePayload),
        },
    }
}

/// The signature algorithms of feed request JWTs.
#[derive(Clone, Copy, Debug, PartialEq, Eq, Structural)]
pub enum JwtAlg {
    Es256k,
    Es256,
    Hs256,
}

/// The algorithm a JWT header names, where it is one this service accepts.
pub open spec fn spec_jwt_alg(alg: Seq<char>) -> Option<JwtAlg> {
    if alg == "ES256K"@ {
        Some(JwtAlg::Es256k)
    } else if alg == "ES256"@ {
        Some(JwtAlg::Es256)
    } else if alg == "HS256"@ {
        Some(JwtAlg::Hs256)
    } else {
        None
    }
}

/// The algorithm a JWT header names; the unsupported-algorithm error
/// otherwise.
pub fn check_alg(alg: &str) -> (r: Result<JwtAlg, JwtError>)
    ensures
        match spec_jwt_alg(alg@) {
            Some(a) => r matches Ok(b) && a == b,
            None => r matches Err(JwtError::UnsupportedAlgorithm(x)) && x@ == alg@,
        },
{
    if str_eq(alg, "ES256K") {
        Ok(JwtAlg::Es256k)
    } else if str_eq(alg, "ES256") {
        Ok(JwtAlg::Es256)
    } else if str_eq(alg, "HS256") {
        Ok(JwtAlg::Hs256)
    } else {
        Err(JwtError::UnsupportedAlgorithm(String::from_str(alg)))
    }
}

/// Checks a feed request's claims at time `now` (seconds since the Unix
/// epoch): not expired, and meant for this service.
pub fn check_claims(payload: &JwtParts, service_did: &str, now: u128) -> (r: Result<(), JwtError>)
    ensures
        now > payload.exp ==> r matches Err(JwtError::Expired),
        now <= payload.exp && payload.aud@ != service_did@ ==> r matches Err(JwtError::AudienceMismatch),
        now <= payload.exp && payload.aud@ == service_did@ ==> r is Ok,
{
    if now > payload.exp {
        return Err(JwtError::Expired);
    }
    if !str_eq(service_did, payload.aud.as_str()) {
        return Err(JwtError::AudienceMismatch);
    }
    Ok(())
}

/// The text a JWT's signature signs: its header and payload parts.
pub open spec fn spec_signing_input(seg: JwtSegments) -> Seq<char> {
    seg.header@ + "."@ + seg.payload@
}

/// The text a JWT's signature signs.
pub fn signing_input(seg: &JwtSegments) -> (s: String)
    ensures
        s@ == spec_signing_input(*seg),
{
    let mut s = seg.header.clone();
    s.append(".");
    s.append(seg.payload.as_str());
    s
}

/// The bytes of a JWT's signature; the decoding error where it has none.
pub fn signature_bytes(seg: &JwtSegments) -> (r: Result<Vec<u8>, JwtError>)
    ensures
        match spec_decode_segment(seg.signature@) {
            Some(b) => r matches Ok(x) && x@ == b,
            None => r matches Err(JwtError::DecodeSignature),
        },
{
    match decode_segment(seg.signature.as_str()) {
        Some(b) => Ok(b),
        None => Err(JwtError::DecodeSignature),
    }
}

/// Where the signing key of an ES256K or ES256 JWT comes from.
pub enum KeySource {
    /// The issuer is itself a did:key.
    DidKey(String),
    /// The issuer's DID document names the key.
    Resolve(String),
}

/// `key` is where the signing key of a JWT from `iss` comes from: the
/// issuer itself where it is a did:key, else its DID document.
pub open spec fn spec_key_source(iss: Seq<char>, key: KeySource) -> bool {
    if seq_starts_with(iss, "did:key:"@) {
        key matches KeySource::DidKey(k) && k@ == iss
    } else {
        key matches KeySource::Resolve(d) && d@ == iss
    }
}

/// Where the signing key of a JWT from `iss` comes from.
pub fn key_source(iss: &str) -> (r: KeySource)
    ensures
        spec_key_source(iss@, r),
{
    if str_starts_with(iss, "did:key:") {
        KeySource::DidKey(String::from_str(iss))
    } else {
        KeySource::Resolve(String::from_str(iss))
    }
}

/// What is left of a feed request's JWT check once its header and payload
/// are read: the signature, over the signing input, and how to check it.
pub enum SignatureCheck {
    /// An ES256K or ES256 signature, checked with the key that `key` names.
    Es { key: KeySource, input: String, sig: Vec<u8> },
    /// An HS256 signature, checked with the configured secret.
    Hs { input: String, sig: Vec<u8> },
}

/// Checks a feed request's claims at time `now` (seconds since the Unix
/// epoch) and decodes its signature: what is left to check, or the first
/// check that failed (expiry, audience, signature encoding).
pub fn signature_check(seg: &JwtSegments, alg: JwtAlg, payload: &JwtParts, service_did: &str, now: u128) -> (r: Result<SignatureCheck, JwtError>)
    ensures
        now > payload.exp ==> r matches Err(JwtError::Expired),
        now <= payload.exp && payload.aud@ != service_did@ ==> r matches Err(JwtError::AudienceMismatch),
        now <= payload.exp && payload.aud@ == service_did@ ==> match spec_decode_segment(seg.signature@) {
            None => r matches Err(JwtError::DecodeSignature),
            Some(b) => match r {
                Ok(SignatureCheck::Es { key, input, sig }) => alg != JwtAlg::Hs256
                    && spec_key_source(payload.iss@, key) && input@ == spec_signing_input(*seg) && sig@ == b,
                Ok(SignatureCheck::Hs { input, sig }) => alg == JwtAlg::Hs256
                    && input@ == spec_signing_input(*seg) && sig@ == b,
                Err(_) => false,
            },
        },
{
    check_claims(payload, service_did, now)?;
    let input = signing_input(seg);
    let sig = signature_bytes(seg)?;
    match alg {
        JwtAlg::Hs256 => Ok(SignatureCheck::Hs { input, sig }),
        _ => Ok(SignatureCheck::Es { key: key_source(payload.iss.as_str()), input, sig }),
    }
}

/// Every check of a feed request's JWT before its signature passes: it has
/// three parts; its header decodes to text whose `alg` (as read by the
/// caller) is a supported algorithm; its payload decodes to text whose claims
/// (as read by the caller) are in force at `now` and meant for
/// `service_did`; and its signature part decodes.
pub open spec fn spec_jwt_prechecks_pass(
    jwt: Seq<char>,
    alg: Option<Seq<char>>,
    claims: Option<JwtParts>,
    now: Option<u128>,
    service_did: Seq<char>,
) -> bool {
    &&& spec_jwt_segments(jwt) matches Some((h, p, s))
    &&& spec_segment_text(h) is Some
    &&& alg matches Some(a) && spec_jwt_alg(a) is Some
    &&& spec_segment_text(p) is Some
    &&& claims matches Some(c)
    &&& now matches Some(t) && t <= c.exp && c.aud@ == service_did
    &&& spec_decode_segment(s) is Some
}

/// The checks of a feed request's JWT up to its signature, in the order the
/// service makes them, given what the caller read from the header text
/// (`alg`: the algorithm it names, `None` where it is not a JWT header), from
/// the payload text (`claims`, likewise) and from the clock (`now`, `None`
/// where it reads a time before the Unix epoch). It succeeds only where every
/// check passes, with the signature to check; otherwise it gives the first
/// failure.
pub fn jwt_verdict(
    jwt: &str,
    alg: Option<&str>,
    claims: Option<&JwtParts>,
    now: Option<u128>,
    service_did: &str,
) -> (r: Result<SignatureCheck, JwtError>)
    ensures
        r is Ok <==> spec_jwt_prechecks_pass(jwt@, match alg { Some(a) => Some(a@), None => None },
            match claims { Some(c) => Some(*c), None => None }, now, service_did@),
        spec_jwt_segments(jwt@) is None ==> r matches Err(JwtError::PoorlyFormatted),
        spec_jwt_segments(jwt@) matches Some((h, p, s)) ==> {
            &&& spec_decode_segment(h) is None ==> (r matches Err(JwtError::DecodeHeader))
            &&& spec_decode_segment(h) is Some && spec_segment_text(h) is None ==> (r matches Err(JwtError::ParseHeader))
            &&& spec_segment_text(h) is Some && alg is None ==> (r matches Err(JwtError::ParseHeader))
            &&& spec_segment_text(h) is Some && alg is Some && spec_jwt_alg(alg->Some_0@) is None
                ==> (r matches Err(JwtError::UnsupportedAlgorithm(x)) && x@ == alg->Some_0@)
            &&& spec_segment_text(h) is Some && alg is Some && spec_jwt_alg(alg->Some_0@) is Some ==> {
                &&& spec_decode_segment(p) is None ==> (r matches Err(JwtError::DecodePayload))
                &&& spec_decode_segment(p) is Some && spec_segment_text(p) is None ==> (r matches Err(JwtError::ParsePayload))
                &&& spec_segment_text(p) is Some && claims is None ==> (r matches Err(JwtError::ParsePayload))
                &&& spec_segment_text(p) is Some && claims is Some ==> {
                    let c = *claims->Some_0;
                    &&& now is None ==> (r matches Err(JwtError::ClockBeforeEpoch))
                    &&& now is Some && now->Some_0 > c.exp ==> (r matches Err(JwtError::Expired))
                    &&& now is Some && now->Some_0 <= c.exp && c.aud@ != service_did@ ==> (r matches Err(JwtError::AudienceMismatch))
                    &&& now is Some && now->Some_0 <= c.exp && c.aud@ == service_did@ && spec_decode_segment(s) is None
                        ==> (r matches Err(JwtError::DecodeSignature))
                    &&& r matches Ok(check) ==> match check {
                        SignatureCheck::Es { key, input, sig } => spec_jwt_alg(alg->Some_0@) != Some(JwtAlg::Hs256)
                            && spec_key_source(c.iss@, key) && input@ == h + "."@ + p
                            && sig@ == spec_decode_segment(s)->Some_0,
                        SignatureCheck::Hs { input, sig } => spec_jwt_alg(alg->Some_0@) == Some(JwtAlg::Hs256)
                            && input@ == h + "."@ + p && sig@ == spec_decode_segment(s)->Some_0,
                    }
                }
            }
        },
{
    let seg = match split_jwt(jwt) {
        Some(seg) => seg,
        None => return Err(JwtError::PoorlyFormatted),
    };
    header_json(&seg)?;
    let name = match alg {
        Some(a) => a,
        None => return Err(JwtError::ParseHeader),
    };
    let alg = check_alg(name)?;
    payload_json(&seg)?;
    let claims = match claims {
        Some(c) => c,
        None => return Err(JwtError::ParsePayload),
    };
    let now = match now {
        Some(t) => t,
        None => return Err(JwtError::ClockBeforeEpoch),
    };
    signature_check(&seg, alg, claims, service_did, now)
}

/// Checks an ES256K or ES256 signature over the SHA-256 digest of the
/// signing input, with the issuer's did:key.
pub fn check_es_signature(signing_key: &String, input: &str, sig: &[u8]) -> (r: Result<(), JwtError>)
    ensures
        match spec_verify_signature(signing_key@, spec_sha256(encode_utf8(input@)), sig@, false) {
            Ok(true) => r is Ok,
            Ok(false) => r matches Err(JwtError::VerificationFailed),
            Err(f) => r matches Err(JwtError::SignatureError(e)) && e.fault() == f,
        },
{
    let digest = sha256(input.as_bytes());
    match verify_signature(signing_key, digest.as_slice(), sig, None) {
        Ok(true) => Ok(()),
        Ok(false) => Err(JwtError::VerificationFailed),
        Err(e) => Err(JwtError::SignatureError(e)),
    }
}

/// Checks an HS256 signature: the HMAC-SHA256 tag of the signing input under
/// the secret.
pub fn check_hs_signature(secret: &str, input: &str, sig: &[u8]) -> (r: Result<(), JwtError>)
    ensures
        sig@ == spec_hmac_sha256(encode_utf8(secret@), encode_utf8(input@)) ==> r is Ok,
        sig@ != spec_hmac_sha256(encode_utf8(secret@), encode_utf8(input@)) ==> r matches Err(JwtError::VerificationFailed),
{
    let expected = hmac_tag(secret.as_bytes(), input.as_bytes());
    if bytes_eq(sig, expected.as_slice()) {
        Ok(())
    } else {
        Err(JwtError::VerificationFailed)
    }
}

/// Whether two byte strings are equal.
fn bytes_eq(a: &[u8], b: &[u8]) -> (r: bool)
    ensures
        r == (a@ == b@),
{
    if a.len() != b.len() {
        return false;
    }
    let mut i: usize = 0;
    while i < a.len()
        invariant
            a@.len() == b@.len(),
            i <= a@.len(),
            forall|j: int| 0 <= j < i ==> a@[j] == b@[j],
        decreases a@.len() - i,
    {
        if a[i] != b[i] {
            return false;
        }
        i = i + 1;
    }
    assert(a@ =~= b@);
    true
}

/// The API key of a queue request that passed the check.
pub struct ApiKey(pub String);

/// The verified claims (as JSON text) of a feed request's JWT.
pub struct AccessToken(pub String);

/// A feed request's access token, where it has a valid one.
pub struct OptionalAccessToken(pub Option<AccessToken>);

/// The user of a settings-site request, named by its session token.
pub struct SessionToken {
    pub did: String,
}

/// What the `Authorization` or `X-KEY` header of a request holds.
pub enum HeaderText {
    /// The header is absent.
    Absent,
    /// The header's value is not visible ASCII text.
    NotText,
    /// The header's text.
    Text(String),
}

/// An error body and the HTTP status it goes with.
pub struct Rejection {
    pub status: u16,
    pub body: InternalErrorMessageResponse,
}

/// A 401 rejection with an `unavailable` code and the given message.
pub open spec fn spec_unauthorized(r: Rejection, message: Seq<char>) -> bool {
    &&& r.status == 401
    &&& r.body.code == Some(InternalErrorCode::Unavailable)
    &&& r.body.message matches Some(m) && m@ == message
}

/// A rejection with an `unavailable` code.
fn unavailable(status: u16, message: &str) -> (r: Rejection)
    ensures
        r.status == status,
        r.body.code == Some(InternalErrorCode::Unavailable),
        r.body.message matches Some(m) && m@ == message@,
{
    Rejection { status, body: InternalErrorMessageResponse::with(InternalErrorCode::Unavailable, message) }
}

/// Checks the `X-KEY` header of a queue request against the configured API
/// key; returns the key where they match.
pub fn check_api_key(configured: Option<&str>, header: &HeaderText) -> (r: Result<ApiKey, Rejection>)
    ensures
        match configured {
            None => r matches Err(rej) && rej.status == 400 && rej.body.code == Some(InternalErrorCode::Unavailable)
                && (rej.body.message matches Some(m) && m@ == "API Key not configured"@),
            Some(key) => match *header {
                HeaderText::Absent => r matches Err(rej) && spec_unauthorized(rej, "Missing API Key"@),
                HeaderText::Text(t) => if t@ == key@ {
                    r matches Ok(k) && k.0@ == key@
                } else {
                    r matches Err(rej) && spec_unauthorized(rej, "Invalid API Key"@)
                },
                HeaderText::NotText => r matches Err(rej) && spec_unauthorized(rej, "Invalid API Key"@),
            },
        },
{
    match configured {
        None => Err(unavailable(400, "API Key not configured")),
        Some(key) => match header {
            HeaderText::Absent => Err(unavailable(401, "Missing API Key")),
            HeaderText::Text(t) => if str_eq(t.as_str(), key) {
                Ok(ApiKey(String::from_str(key)))
            } else {
                Err(unavailable(401, "Invalid API Key"))
            },
            HeaderText::NotText => Err(unavailable(401, "Invalid API Key")),
        },
    }
}

/// The token of an `Authorization: Bearer` header.
pub open spec fn spec_bearer_token(header: HeaderText) -> Result<Seq<char>, Seq<char>> {
    match header {
        HeaderText::Absent => Err("Missing Authorization header"@),
        HeaderText::NotText => Err("Invalid Authorization header"@),
        HeaderText::Text(t) => if seq_starts_with(t@, "Bearer "@) {
            Ok(t@.skip(7))
        } else {
            Err("Invalid token format"@)
        },
    }
}

/// The token of an `Authorization: Bearer` header; the 401 rejection where
/// there is none.
pub fn bearer_token(header: &HeaderText) -> (r: Result<String, Rejection>)
    ensures
        match spec_bearer_token(*header) {
            Ok(t) => r matches Ok(x) && x@ == t,
            Err(m) => r matches Err(rej) && spec_unauthorized(rej, m),
        },
{
    proof {
        reveal_strlit("Bearer ");
    }
    match header {
        HeaderText::Absent => Err(unavailable(401, "Missing Authorization header")),
        HeaderText::NotText => Err(unavailable(401, "Invalid Authorization header")),
        HeaderText::Text(t) => if str_starts_with(t.as_str(), "Bearer ") {
            let cs = chars_of(t.as_str());
            Ok(string_from_chars(&cs, 7))
        } else {
            Err(unavailable(401, "Invalid token format"))
        },
    }
}

/// The rejection of a feed request whose JWT failed verification.
pub fn invalid_token(e: &JwtError) -> (r: Rejection)
    ensures
        spec_unauthorized(r, "Invalid token: "@ + e.spec_message()),
{
    let mut m = String::from_str("Invalid token: ");
    let t = e.message();
    m.append(t.as_str());
    Rejection { status: 401, body: InternalErrorMessageResponse { code: Some(InternalErrorCode::Unavailable), message: Some(m) } }
}

/// A feed request's optional access token: a 401 rejection means no token;
/// any other rejection stands.
pub fn optional_access_token(r: Result<AccessToken, Rejection>) -> (o: Result<OptionalAccessToken, Rejection>)
    ensures
        match r {
            Ok(t) => o matches Ok(OptionalAccessToken(Some(x))) && x.0@ == t.0@,
            Err(rej) => if rej.status == 401 { o matches Ok(OptionalAccessToken(None)) } else { o matches Err(x) && x.status == rej.status },
        },
{
    match r {
        Ok(t) => Ok(OptionalAccessToken(Some(t))),
        Err(rej) => if rej.status == 401 { Ok(OptionalAccessToken(None)) } else { Err(rej) },
    }
}

/// Why a session token is refused.
#[derive(Debug)]
pub enum SessionError {
    PoorlyFormatted,
    SecretMissing,
    DecodeSignature,
    VerificationFailed,
    DecodePayload,
    ParsePayload,
    ClockBeforeEpoch,
    Expired,
    MissingSub,
}

impl SessionError {
    /// The human-readable text of the error.
    pub open spec fn spec_message(&self) -> Seq<char> {
        match self {
            SessionError::PoorlyFormatted => "poorly formatted jwt"@,
            SessionError::SecretMissing => "JWT_SECRET not configured"@,
            SessionError::DecodeSignature => "error decoding signature"@,
            SessionError::VerificationFailed => "jwt signature verification failed"@,
            SessionError::DecodePayload => "error decoding payload"@,
            SessionError::ParsePayload => "error parsing payload"@,
            SessionError::ClockBeforeEpoch => "system time error"@,
            SessionError::Expired => "session token expired"@,
            SessionError::MissingSub => "missing sub claim"@,
        }
    }

    /// The human-readable text of the error.
    pub fn message(&self) -> (m: String)
        ensures
            m@ == self.spec_message(),
    {
        match self {
            SessionError::PoorlyFormatted => String::from_str("poorly formatted jwt"),
            SessionError::SecretMissing => String::from_str("JWT_SECRET not configured"),
            SessionError::DecodeSignature => String::from_str("error decoding signature"),
            SessionError::VerificationFailed => String::from_str("jwt signature verification failed"),
            SessionError::DecodePayload => String::from_str("error decoding payload"),
            SessionError::ParsePayload => String::from_str("error parsing payload"),
            SessionError::ClockBeforeEpoch => String::from_str("system time error"),
            SessionError::Expired => String::from_str("session token expired"),
            SessionError::MissingSub => String::from_str("missing sub claim"),
        }
    }
}

/// The payload JSON text of a session token signed with `secret`: its
/// signature part must be URL-safe base64 of the HMAC-SHA256 tag of its
/// first two parts, and its payload part URL-safe base64 of UTF-8 text.
pub open spec fn spec_session_payload(token: Seq<char>, secret: Seq<u8>) -> Result<Seq<char>, SessionError> {
    match spec_jwt_segments(token) {
        None => Err(SessionError::PoorlyFormatted),
        Some((h, p, s)) => match spec_b64url_decode(s) {
            None => Err(SessionError::DecodeSignature),
            Some(sig) => if sig != spec_hmac_sha256(secret, encode_utf8(h + "."@ + p)) {
                Err(SessionError::VerificationFailed)
            } else {
                match spec_b64url_decode(p) {
                    None => Err(SessionError::DecodePayload),
                    Some(pb) => match spec_utf8_decode(pb) {
                        None => Err(SessionError::ParsePayload),
                        Some(t) => Ok(t),
                    },
                }
            },
        },
    }
}

/// Checks a session token's signature with `secret` and returns its payload
/// JSON text. `secret` is `None` where no secret is configured.
pub fn session_payload(token: &str, secret: Option<&str>) -> (r: Result<String, SessionError>)
    ensures
        spec_jwt_segments(token@) is None ==> r matches Err(SessionError::PoorlyFormatted),
        spec_jwt_segments(token@) is Some && secret is None ==> r matches Err(SessionError::SecretMissing),
        spec_jwt_segments(token@) is Some && secret is Some ==> match spec_session_payload(token@, encode_utf8(secret->Some_0@)) {
            Ok(t) => r matches Ok(x) && x@ == t,
            Err(e) => r matches Err(x) && spec_same_session_error(x, e),
        },
{
    let seg = match split_jwt(token) {
        Some(seg) => seg,
        None => return Err(SessionError::PoorlyFormatted),
    };
    let key = match secret {
        Some(k) => k,
        None => return Err(SessionError::SecretMissing),
    };
    let input = signing_input(&seg);
    assert(input@ == seg.header@ + "."@ + seg.payload@);
    let sig = match b64url_decode(seg.signature.as_str()) {
        Some(b) => b,
        None => return Err(SessionError::DecodeSignature),
    };
    let expected = hmac_tag(key.as_bytes(), input.as_str().as_bytes());
    if !bytes_eq(sig.as_slice(), expected.as_slice()) {
        return Err(SessionError::VerificationFailed);
    }
    let pb = match b64url_decode(seg.payload.as_str()) {
        Some(b) => b,
        None => return Err(SessionError::DecodePayload),
    };
    match utf8_decode(pb.as_slice()) {
        Some(t) => Ok(t),
        None => Err(SessionError::ParsePayload),
    }
}

/// Two session errors are of the same kind.
pub open spec fn spec_same_session_error(a: SessionError, b: SessionError) -> bool {
    match (a, b) {
        (SessionError::PoorlyFormatted, SessionError::PoorlyFormatted) => true,
        (SessionError::SecretMissing, SessionError::SecretMissing) => true,
        (SessionError::DecodeSignature, SessionError::DecodeSignature) => true,
        (SessionError::VerificationFailed, SessionError::VerificationFailed) => true,
        (SessionError::DecodePayload, SessionError::DecodePayload) => true,
        (SessionError::ParsePayload, SessionError::ParsePayload) => true,
        (SessionError::ClockBeforeEpoch, SessionError::ClockBeforeEpoch) => true,
        (SessionError::Expired, SessionError::Expired) => true,
        (SessionError::MissingSub, SessionError::MissingSub) => true,
        _ => false,
    }
}

/// Checks a session token's expiry, where its payload names one, at time
/// `now` (seconds since the Unix epoch).
pub fn check_session_expiry(exp: Option<u64>, now: u64) -> (r: Result<(), SessionError>)
    ensures
        match exp {
            Some(e) => if now > e { r matches Err(SessionError::Expired) } else { r is Ok },
            None => r is Ok,
        },
{
    match exp {
        Some(e) => if now > e { Err(SessionError::Expired) } else { Ok(()) },
        None => Ok(()),
    }
}

/// The user that a session token names in its `sub` claim.
pub fn session_subject(sub: Option<String>) -> (r: Result<SessionToken, SessionError>)
    ensures
        match sub {
            Some(d) => r matches Ok(x) && x.did@ == d@,
            None => r matches Err(SessionError::MissingSub),
        },
{
    match sub {
        Some(d) => Ok(SessionToken { did: d }),
        None => Err(SessionError::MissingSub),
    }
}

/// The session token of a header and payload (their JSON texts) signed with
/// `secret`: URL-safe base64 of each, and of the HMAC-SHA256 tag of the two.
pub open spec fn spec_session_token(header: Seq<char>, payload: Seq<char>, secret: Seq<u8>) -> Seq<char> {
    let input = spec_b64url_encode(encode_utf8(header)) + "."@ + spec_b64url_encode(encode_utf8(payload));
    input + "."@ + spec_b64url_encode(spec_hmac_sha256(secret, encode_utf8(input)))
}

/// How long a session token stays valid: a day, in seconds.
pub const SESSION_LIFETIME_SECS: u128 = 86400;

/// The claims of a session token: the user, when it was issued and when it
/// expires (seconds since the Unix epoch).
pub struct SessionClaims {
    pub sub: String,
    pub iat: u128,
    pub exp: u128,
}

/// The claims of a session token issued to `did` at time `now`: it expires a
/// day later.
pub fn session_claims(did: &str, now: u64) -> (c: SessionClaims)
    ensures
        c.sub@ == did@,
        c.iat == now,
        c.exp == now + SESSION_LIFETIME_SECS,
{
    let iat: u128 = now as u128;
    SessionClaims { sub: String::from_str(did), iat, exp: iat + SESSION_LIFETIME_SECS }
}

/// Signs a session token.
pub fn session_token(header_json: &str, payload_json: &str, secret: &str) -> (t: String)
    ensures
        t@ == spec_session_token(header_json@, payload_json@, encode_utf8(secret@)),
        spec_session_payload(t@, encode_utf8(secret@)) == Ok::<Seq<char>, SessionError>(payload_json@),
{
    let h = b64url_encode(header_json.as_bytes());
    let p = b64url_encode(payload_json.as_bytes());
    let ghost h_view = h@;
    let mut input = h;
    input.append(".");
    input.append(p.as_str());
    let tag = hmac_tag(secret.as_bytes(), input.as_str().as_bytes());
    let sig = b64url_encode(tag.as_slice());
    let mut t = input;
    t.append(".");
    t.append(sig.as_str());
    proof {
        lemma_segments_of_joined(h_view, p@, sig@);
        assert(t@ =~= h_view + "."@ + p@ + "."@ + sig@);
        vstd::utf8::encode_utf8_valid_utf8(payload_json@);
        vstd::utf8::encode_utf8_decode_utf8(payload_json@);
    }
    t
}

proof fn lemma_segments_of_joined(a: Seq<char>, b: Seq<char>, c: Seq<char>)
    requires
        forall|i: int| 0 <= i < a.len() ==> a[i] != '.',
        forall|i: int| 0 <= i < b.len() ==> b[i] != '.',
        forall|i: int| 0 <= i < c.len() ==> c[i] != '.',
    ensures
        spec_jwt_segments(a + "."@ + b + "."@ + c) == Some((a, b, c)),
{
    reveal_strlit(".");
    let t = a + "."@ + b + "."@ + c;
    assert forall|j: int| 0 <= j < a.len() implies t[j] != '.' by {
        assert(t[j] == a[j]);
    }
    lemma_find(t, '.', a.len() as int);
    let rest = t.skip(a.len() as int + 1);
    assert(rest =~= b + "."@ + c);
    assert forall|j: int| 0 <= j < b.len() implies rest[j] != '.' by {
        assert(rest[j] == b[j]);
    }
    lemma_find(rest, '.', b.len() as int);
    let last = rest.skip(b.len() as int + 1);
    assert(last =~= c);
    lemma_find(last, '.', c.len() as int);
    assert(t.take(a.len() as int) =~= a);
    assert(rest.take(b.len() as int) =~= b);
}

} // verus!
