//! Reading the handle, signing key and PDS endpoint out of a DID document.
use vstd::prelude::*;
use crate::crypto::constants::{p256_jwt_alg, secp256k1_jwt_alg, spec_p256_jwt_alg, spec_secp256k1_jwt_alg};
use crate::crypto::constants::spec_did_key_prefix;
use crate::crypto::did::{
    format_did_key, parse_multikey, spec_alg_of_jwt, spec_format_did_key, spec_multikey_round_trips,
    spec_parse_multikey,
};
use crate::crypto::error::{CryptoError, KeyFault};
use crate::crypto::multibase::{multibase_to_bytes, spec_multibase_decode};
use crate::identity::types::{
    AtprotoData, DidDocument, DidDocumentView, Service, ServiceView, VerificationMethod,
    VerificationMethodView,
};
use crate::text::{chars_of, seq_starts_with, str_eq, string_from_chars};

verus! {

/// A public key as a verification method of a DID document states it.
pub struct VerificationMaterial {
    pub type_: String,
    pub public_key_multibase: String,
}

/// The did:key of a verification key given by its type and multibase text:
/// `Ok(None)` for a type that names no supported key.
pub open spec fn spec_did_key_from_multibase(type_: Seq<char>, mb: Seq<char>) -> Result<Option<Seq<char>>, KeyFault> {
    match spec_multibase_decode(mb) {
        None => Err(KeyFault::InvalidMultibase),
        Some(bytes) => if type_ == "EcdsaSecp256r1VerificationKey2019"@ {
            match spec_format_did_key(spec_p256_jwt_alg(), bytes) {
                Ok(d) => Ok(Some(d)),
                Err(f) => Err(f),
            }
        } else if type_ == "EcdsaSecp256k1VerificationKey2019"@ {
            match spec_format_did_key(spec_secp256k1_jwt_alg(), bytes) {
                Ok(d) => Ok(Some(d)),
                Err(f) => Err(f),
            }
        } else if type_ == "Multikey"@ {
            match spec_parse_multikey(mb) {
                Err(f) => Err(f),
                Ok(parsed) => match spec_format_did_key(parsed.0.spec_jwt_alg(), parsed.1) {
                    Ok(d) => Ok(Some(d)),
                    Err(f) => Err(f),
                },
            }
        } else {
            Ok(None)
        },
    }
}

/// A multikey that formatting gives (one that parsing and formatting again
/// gives back, as `format_multikey` ensures of its result), stated as a key of
/// type `Multikey`, resolves to `did:key:` followed by the same text.
pub proof fn law_formatted_multikey_resolves(mb: Seq<char>)
    requires
        spec_multikey_round_trips(mb),
    ensures
        spec_did_key_from_multibase("Multikey"@, mb) == Ok::<Option<Seq<char>>, KeyFault>(Some(spec_did_key_prefix() + mb)),
{
    reveal_strlit("Multikey");
    reveal_strlit("EcdsaSecp256r1VerificationKey2019");
    reveal_strlit("EcdsaSecp256k1VerificationKey2019");
    assert("Multikey"@.len() == 8);
    assert("EcdsaSecp256r1VerificationKey2019"@.len() == 33);
    assert("EcdsaSecp256k1VerificationKey2019"@.len() == 33);
}

/// The did:key of a verification key, or `None` where its type names no
/// supported key.
pub fn get_did_key_from_multibase(key: VerificationMaterial) -> (r: Result<Option<String>, CryptoError>)
    ensures
        match r {
            Ok(d) => match spec_did_key_from_multibase(key.type_@, key.public_key_multibase@) {
                Ok(Some(s)) => d matches Some(x) && x@ == s,
                Ok(None) => d is None,
                Err(_) => false,
            },
            Err(e) => spec_did_key_from_multibase(key.type_@, key.public_key_multibase@)
                == Err::<Option<Seq<char>>, KeyFault>(e.fault()),
        },
        key.type_@ == "Multikey"@ && spec_parse_multikey(key.public_key_multibase@) is Ok ==>
            (r matches Ok(Some(d)) && (spec_multikey_round_trips(key.public_key_multibase@)
                ==> d@ == spec_did_key_prefix() + key.public_key_multibase@)),
{
    let ghost mb = key.public_key_multibase@;
    proof {
        reveal_strlit("Multikey");
        reveal_strlit("EcdsaSecp256r1VerificationKey2019");
        reveal_strlit("EcdsaSecp256k1VerificationKey2019");
        assert("Multikey"@.len() == 8);
        assert("EcdsaSecp256r1VerificationKey2019"@.len() == 33);
        assert("EcdsaSecp256k1VerificationKey2019"@.len() == 33);
    }
    let key_bytes = match multibase_to_bytes(key.public_key_multibase.clone()) {
        Ok(b) => b,
        Err(e) => return Err(e),
    };
    if str_eq(key.type_.as_str(), "EcdsaSecp256r1VerificationKey2019") {
        let alg = p256_jwt_alg();
        match format_did_key(String::from_str(alg), key_bytes) {
            Ok(d) => Ok(Some(d)),
            Err(e) => Err(e),
        }
    } else if str_eq(key.type_.as_str(), "EcdsaSecp256k1VerificationKey2019") {
        let alg = secp256k1_jwt_alg();
        match format_did_key(String::from_str(alg), key_bytes) {
            Ok(d) => Ok(Some(d)),
            Err(e) => Err(e),
        }
    } else if str_eq(key.type_.as_str(), "Multikey") {
        let parsed = match parse_multikey(key.public_key_multibase) {
            Ok(p) => p,
            Err(e) => return Err(e),
        };
        proof {
            assert(spec_p256_jwt_alg().len() != spec_secp256k1_jwt_alg().len());
            assert(spec_alg_of_jwt(parsed.jwt_alg@) == Some(spec_parse_multikey(mb)->Ok_0.0));
        }
        match format_did_key(parsed.jwt_alg, parsed.key_bytes) {
            Ok(d) => Ok(Some(d)),
            Err(e) => Err(e),
        }
    } else {
        Ok(None)
    }
}

/// `s` with every leading repetition of `p` removed.
pub open spec fn spec_trim_start_matches(s: Seq<char>, p: Seq<char>) -> Seq<char>
    decreases s.len(),
{
    if p.len() > 0 && seq_starts_with(s, p) {
        spec_trim_start_matches(s.skip(p.len() as int), p)
    } else {
        s
    }
}

/// The handle of a document: its first `alsoKnownAs` entry without the
/// leading `at://`.
pub open spec fn spec_handle(doc: DidDocumentView) -> Option<Seq<char>> {
    match doc.also_known_as {
        Some(aka) => if aka.len() > 0 {
            Some(spec_trim_start_matches(aka[0], "at://"@))
        } else {
            None
        },
        None => None,
    }
}

/// The endpoint of the first personal data server among `services`.
pub open spec fn spec_first_pds(services: Seq<ServiceView>) -> Option<Seq<char>>
    decreases services.len(),
{
    if services.len() == 0 {
        None
    } else {
        match spec_first_pds(services.drop_last()) {
            Some(e) => Some(e),
            None => if services.last().type_ == "AtprotoPersonalDataServer"@ {
                Some(services.last().service_endpoint)
            } else {
                None
            },
        }
    }
}

/// The PDS endpoint of a document.
pub open spec fn spec_pds(doc: DidDocumentView) -> Option<Seq<char>> {
    match doc.service {
        Some(s) => spec_first_pds(s),
        None => None,
    }
}

/// A verification method that holds the atproto signing key of `did`.
pub open spec fn spec_is_atproto_method(vm: VerificationMethodView, did: Seq<char>) -> bool {
    vm.id == did + "#atproto"@ || vm.id == "#atproto"@
}

/// The first verification method among `vms` that holds the atproto key.
pub open spec fn spec_first_atproto_method(vms: Seq<VerificationMethodView>, did: Seq<char>) -> Option<VerificationMethodView>
    decreases vms.len(),
{
    if vms.len() == 0 {
        None
    } else {
        match spec_first_atproto_method(vms.drop_last(), did) {
            Some(m) => Some(m),
            None => if spec_is_atproto_method(vms.last(), did) {
                Some(vms.last())
            } else {
                None
            },
        }
    }
}

/// The signing key of a document as a did:key: `Ok(None)` where the document
/// names none this library can read.
pub open spec fn spec_signing_key(doc: DidDocumentView) -> Result<Option<Seq<char>>, KeyFault> {
    match doc.verification_method {
        None => Ok(None),
        Some(vms) => match spec_first_atproto_method(vms, doc.id) {
            None => Ok(None),
            Some(vm) => match vm.public_key_multibase {
                None => Ok(None),
                Some(pk) => spec_did_key_from_multibase(vm.type_, pk),
            },
        },
    }
}

/// Why a document yields no atproto data.
#[derive(Clone, Copy, Debug, PartialEq, Eq, Structural)]
pub enum AtprotoFault {
    NoHandle,
    Key(KeyFault),
    NoSigningKey,
    NoPdsEndpoint,
}

/// The atproto data of a document: DID, signing key, handle and PDS endpoint.
pub open spec fn spec_atproto_data(doc: DidDocumentView) -> Result<(Seq<char>, Seq<char>, Seq<char>, Seq<char>), AtprotoFault> {
    match spec_handle(doc) {
        None => Err(AtprotoFault::NoHandle),
        Some(handle) => match spec_signing_key(doc) {
            Err(f) => Err(AtprotoFault::Key(f)),
            Ok(None) => Err(AtprotoFault::NoSigningKey),
            Ok(Some(key)) => match spec_pds(doc) {
                None => Err(AtprotoFault::NoPdsEndpoint),
                Some(pds) => Ok((doc.id, key, handle, pds)),
            },
        },
    }
}

proof fn lemma_no_atproto_method(vms: Seq<VerificationMethodView>, did: Seq<char>)
    requires
        forall|j: int| 0 <= j < vms.len() ==> !spec_is_atproto_method(#[trigger] vms[j], did),
    ensures
        spec_first_atproto_method(vms, did) is None,
    decreases vms.len(),
{
    if vms.len() > 0 {
        lemma_no_atproto_method(vms.drop_last(), did);
    }
}

proof fn lemma_first_atproto_method(vms: Seq<VerificationMethodView>, did: Seq<char>, i: int)
    requires
        0 <= i < vms.len(),
        spec_is_atproto_method(vms[i], did),
        forall|j: int| 0 <= j < i ==> !spec_is_atproto_method(#[trigger] vms[j], did),
    ensures
        spec_first_atproto_method(vms, did) == Some(vms[i]),
    decreases vms.len(),
{
    if i < vms.len() - 1 {
        lemma_first_atproto_method(vms.drop_last(), did, i);
    } else {
        lemma_no_atproto_method(vms.drop_last(), did);
    }
}

/// A document's atproto data is decided by its handle first and then by the
/// first verification method that names the atproto key: where there is no
/// handle, that is the error whatever else the document holds; where that
/// first method carries no public key, the document has no signing key, even
/// if a later atproto method carries one.
pub proof fn law_first_atproto_method_decides(doc: DidDocumentView, i: int)
    requires
        doc.verification_method matches Some(vms) && 0 <= i < vms.len()
            && spec_is_atproto_method(vms[i], doc.id)
            && forall|j: int| 0 <= j < i ==> !spec_is_atproto_method(#[trigger] vms[j], doc.id),
    ensures
        spec_handle(doc) is None ==> spec_atproto_data(doc) == Err::<(Seq<char>, Seq<char>, Seq<char>, Seq<char>), AtprotoFault>(AtprotoFault::NoHandle),
        spec_handle(doc) is Some && doc.verification_method->Some_0[i].public_key_multibase is None
            ==> spec_atproto_data(doc) == Err::<(Seq<char>, Seq<char>, Seq<char>, Seq<char>), AtprotoFault>(AtprotoFault::NoSigningKey),
        spec_signing_key(doc) == match doc.verification_method->Some_0[i].public_key_multibase {
            None => Ok::<Option<Seq<char>>, KeyFault>(None),
            Some(pk) => spec_did_key_from_multibase(doc.verification_method->Some_0[i].type_, pk),
        },
{
    lemma_first_atproto_method(doc.verification_method->Some_0, doc.id, i);
}

/// A document that yields no atproto data.
#[derive(Debug)]
pub enum AtprotoDataError {
    NoHandle,
    Key(CryptoError),
    NoSigningKey,
    NoPdsEndpoint,
}

impl AtprotoDataError {
    /// The kind of the error.
    pub open spec fn fault(&self) -> AtprotoFault {
        match self {
            AtprotoDataError::NoHandle => AtprotoFault::NoHandle,
            AtprotoDataError::Key(e) => AtprotoFault::Key(e.fault()),
            AtprotoDataError::NoSigningKey => AtprotoFault::NoSigningKey,
            AtprotoDataError::NoPdsEndpoint => AtprotoFault::NoPdsEndpoint,
        }
    }

    /// The human-readable text of the error.
    pub open spec fn spec_message(&self) -> Seq<char> {
        match self {
            AtprotoDataError::NoHandle => "No handle found in DID document"@,
            AtprotoDataError::Key(e) => e.spec_message(),
            AtprotoDataError::NoSigningKey => "No signing key found"@,
            AtprotoDataError::NoPdsEndpoint => "No PDS endpoint found"@,
        }
    }

    /// The human-readable text of the error.
    pub fn message(&self) -> (m: String)
        ensures
            m@ == self.spec_message(),
    {
        match self {
            AtprotoDataError::NoHandle => String::from_str("No handle found in DID document"),
            AtprotoDataError::Key(e) => e.message(),
            AtprotoDataError::NoSigningKey => String::from_str("No signing key found"),
            AtprotoDataError::NoPdsEndpoint => String::from_str("No PDS endpoint found"),
        }
    }
}

/// `s` with every leading `at://` removed.
fn trim_at_prefix(s: &String) -> (r: String)
    ensures
        r@ == spec_trim_start_matches(s@, "at://"@),
{
    let cs = chars_of(s.as_str());
    let p = chars_of("at://");
    proof {
        reveal_strlit("at://");
    }
    let mut i: usize = 0;
    assert(s@.skip(0) =~= s@);
    while i < cs.len() && cs.len() - i >= 5 && cs[i] == p[0] && cs[i + 1] == p[1] && cs[i + 2] == p[2]
        && cs[i + 3] == p[3] && cs[i + 4] == p[4]
        invariant
            cs@ == s@,
            p@ == "at://"@,
            p@.len() == 5,
            i <= cs@.len(),
            spec_trim_start_matches(s@, "at://"@) == spec_trim_start_matches(s@.skip(i as int), "at://"@),
        decreases cs@.len() - i,
    {
        let ghost rest = s@.skip(i as int);
        assert(rest.subrange(0, 5) =~= p@);
        assert(rest.skip(5) =~= s@.skip(i + 5));
        i = i + 5;
    }
    let ghost rest = s@.skip(i as int);
    if i < cs.len() && cs.len() - i >= 5 {
        assert(!seq_starts_with(rest, "at://"@)) by {
            if seq_starts_with(rest, "at://"@) {
                assert(rest.subrange(0, 5)[0] == p@[0]);
                assert(rest.subrange(0, 5)[1] == p@[1]);
                assert(rest.subrange(0, 5)[2] == p@[2]);
                assert(rest.subrange(0, 5)[3] == p@[3]);
                assert(rest.subrange(0, 5)[4] == p@[4]);
            }
        }
    }
    let r = string_from_chars(&cs, i);
    assert(r@ =~= rest);
    r
}

/// The endpoint of the first personal data server among `services`.
fn first_pds(services: &Vec<Service>) -> (r: Option<String>)
    ensures
        opt_seq(r) == spec_first_pds(services@.map_values(|s: Service| s@)),
{
    let ghost sv = services@.map_values(|s: Service| s@);
    let mut i: usize = 0;
    while i < services.len()
        invariant
            sv == services@.map_values(|s: Service| s@),
            i <= services@.len(),
            spec_first_pds(sv.take(i as int)) is None,
        decreases services@.len() - i,
    {
        assert(sv.take(i + 1).drop_last() =~= sv.take(i as int));
        if str_eq(services[i].type_.as_str(), "AtprotoPersonalDataServer") {
            assert(sv.take(i + 1).last() == services@[i as int]@);
            proof {
                lemma_first_pds_extends(sv, i as int);
            }
            return Some(services[i].service_endpoint.clone());
        }
        i = i + 1;
    }
    assert(sv.take(i as int) =~= sv);
    None
}

/// Once the first PDS lies within `take(i + 1)`, it is the first PDS of the
/// whole sequence.
proof fn lemma_first_pds_extends(sv: Seq<ServiceView>, i: int)
    requires
        0 <= i < sv.len(),
        spec_first_pds(sv.take(i + 1)) is Some,
    ensures
        spec_first_pds(sv) == spec_first_pds(sv.take(i + 1)),
    decreases sv.len() - i,
{
    if i + 1 < sv.len() {
        assert(sv.take(i + 2).drop_last() =~= sv.take(i + 1));
        lemma_first_pds_extends(sv, i + 1);
    } else {
        assert(sv.take(i + 1) =~= sv);
    }
}

/// The endpoint of the first personal data server that a document lists.
pub fn pds_endpoint(doc: &DidDocument) -> (r: Option<String>)
    ensures
        opt_seq(r) == spec_pds(doc@),
{
    match &doc.service {
        Some(services) => first_pds(services),
        None => None,
    }
}

/// The characters of an optional string.
pub open spec fn opt_seq(v: Option<String>) -> Option<Seq<char>> {
    match v {
        Some(s) => Some(s@),
        None => None,
    }
}

/// The index of the first verification method that holds the atproto key.
fn first_atproto_method(vms: &Vec<VerificationMethod>, did: &String) -> (r: Option<usize>)
    ensures
        match r {
            Some(i) => i < vms@.len() && spec_first_atproto_method(vms@.map_values(|m: VerificationMethod| m@), did@)
                == Some(vms@[i as int]@),
            None => spec_first_atproto_method(vms@.map_values(|m: VerificationMethod| m@), did@) is None,
        },
{
    let ghost mv = vms@.map_values(|m: VerificationMethod| m@);
    let mut full = did.clone();
    full.append("#atproto");
    let mut i: usize = 0;
    while i < vms.len()
        invariant
            mv == vms@.map_values(|m: VerificationMethod| m@),
            full@ == did@ + "#atproto"@,
            i <= vms@.len(),
            spec_first_atproto_method(mv.take(i as int), did@) is None,
        decreases vms@.len() - i,
    {
        assert(mv.take(i + 1).drop_last() =~= mv.take(i as int));
        if str_eq(vms[i].id.as_str(), full.as_str()) || str_eq(vms[i].id.as_str(), "#atproto") {
            assert(mv.take(i + 1).last() == vms@[i as int]@);
            proof {
                lemma_first_method_extends(mv, did@, i as int);
            }
            return Some(i);
        }
        i = i + 1;
    }
    assert(mv.take(i as int) =~= mv);
    None
}

/// Once the first match lies within `take(i + 1)`, it is the first match of
/// the whole sequence.
proof fn lemma_first_method_extends(mv: Seq<VerificationMethodView>, did: Seq<char>, i: int)
    requires
        0 <= i < mv.len(),
        spec_first_atproto_method(mv.take(i + 1), did) is Some,
    ensures
        spec_first_atproto_method(mv, did) == spec_first_atproto_method(mv.take(i + 1), did),
    decreases mv.len() - i,
{
    if i + 1 < mv.len() {
        assert(mv.take(i + 2).drop_last() =~= mv.take(i + 1));
        lemma_first_method_extends(mv, did, i + 1);
    } else {
        assert(mv.take(i + 1) =~= mv);
    }
}

/// The atproto data of a DID document: its DID, its signing key as a
/// did:key, its handle and its PDS endpoint.
pub fn get_atproto_data(doc: DidDocument) -> (r: Result<AtprotoData, AtprotoDataError>)
    ensures
        match r {
            Ok(d) => spec_atproto_data(doc@) == Ok::<(Seq<char>, Seq<char>, Seq<char>, Seq<char>), AtprotoFault>(
                (d.did@, d.signing_key@, d.handle@, d.pds@)),
            Err(e) => spec_atproto_data(doc@) == Err::<(Seq<char>, Seq<char>, Seq<char>, Seq<char>), AtprotoFault>(e.fault()),
        },
{
    let did = doc.id.clone();
    let handle = match &doc.also_known_as {
        Some(aka) => if aka.len() > 0 {
            trim_at_prefix(&aka[0])
        } else {
            return Err(AtprotoDataError::NoHandle);
        },
        None => return Err(AtprotoDataError::NoHandle),
    };
    let pds = pds_endpoint(&doc);
    let signing_key = match &doc.verification_method {
        None => None,
        Some(vms) => match first_atproto_method(vms, &did) {
            None => None,
            Some(i) => {
                let vm = &vms[i];
                match &vm.public_key_multibase {
                    None => None,
                    Some(pk) => {
                        let material = VerificationMaterial { type_: vm.type_.clone(), public_key_multibase: pk.clone() };
                        match get_did_key_from_multibase(material) {
                            Ok(k) => k,
                            Err(e) => return Err(AtprotoDataError::Key(e)),
                        }
                    },
                }
            },
        },
    };
    let signing_key = match signing_key {
        Some(k) => k,
        None => return Err(AtprotoDataError::NoSigningKey),
    };
    let pds = match pds {
        Some(p) => p,
        None => return Err(AtprotoDataError::NoPdsEndpoint),
    };
    Ok(AtprotoData { did, signing_key, handle, pds })
}

} // verus!
