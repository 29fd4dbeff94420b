//! Where a DID's document is fetched from: the PLC directory for `did:plc`,
//! the domain's well-known path for `did:web`.
use vstd::prelude::*;
use crate::identity::common::{decode_uri_component, encode_uri_component, spec_url_decode, spec_url_encode};
use crate::identity::errors::Error;
use crate::text::{chars_of, seq_starts_with, str_eq, str_starts_with, string_from_chars};

verus! {

/// Why no document URL can be made for a DID.
#[derive(Clone, Copy, Debug, PartialEq, Eq, Structural)]
pub enum DidUrlFault {
    PoorlyFormatted,
    UnsupportedMethod,
    UnsupportedWebPath,
}

/// The DID's method is `m`: it is `did:<m>` or begins with `did:<m>:`.
pub open spec fn spec_method_is(did: Seq<char>, m: Seq<char>) -> bool {
    did == "did:"@ + m || seq_starts_with(did, "did:"@ + m + ":"@)
}

/// The scheme under which a `did:web` host serves its document: plain HTTP
/// for `localhost`, HTTPS otherwise.
pub open spec fn spec_web_scheme(host: Seq<char>) -> Seq<char> {
    if host == "localhost"@ || seq_starts_with(host, "localhost:"@) { "http://"@ } else { "https://"@ }
}

/// The method-specific part of a `did:web` DID.
pub open spec fn spec_web_id(did: Seq<char>) -> Seq<char> {
    if did.len() > 8 { did.skip(8) } else { Seq::empty() }
}

/// The URL of a DID's document, given the PLC directory's URL; the fault
/// where there is none.
pub open spec fn spec_did_document_url(did: Seq<char>, plc_url: Seq<char>) -> Result<Seq<char>, DidUrlFault> {
    if !seq_starts_with(did, "did:"@) {
        Err(DidUrlFault::PoorlyFormatted)
    } else if spec_method_is(did, "plc"@) {
        Ok(plc_url + "/"@ + spec_url_encode(did))
    } else if spec_method_is(did, "web"@) {
        let id = spec_web_id(did);
        if id.contains(':') {
            Err(DidUrlFault::UnsupportedWebPath)
        } else {
            match spec_url_decode(id) {
                Some(host) => if host.len() == 0 {
                    Err(DidUrlFault::PoorlyFormatted)
                } else {
                    Ok(spec_web_scheme(host) + host + "/.well-known/did.json"@)
                },
                None => Err(DidUrlFault::PoorlyFormatted),
            }
        }
    } else {
        Err(DidUrlFault::UnsupportedMethod)
    }
}

/// The error of a DID for which no document URL can be made.
pub open spec fn spec_fault_error(e: Error, did: Seq<char>, f: DidUrlFault) -> bool {
    match f {
        DidUrlFault::PoorlyFormatted => e matches Error::PoorlyFormattedDidError(d) && d@ == did,
        DidUrlFault::UnsupportedMethod => e matches Error::UnsupportedDidMethodError(d) && d@ == did,
        DidUrlFault::UnsupportedWebPath => e matches Error::UnsupportedDidWebPathError(d) && d@ == did,
    }
}

/// Whether a DID is `bare` or begins with `prefixed`.
fn method_is(did: &str, bare: &str, prefixed: &str) -> (r: bool)
    ensures
        r == (did@ == bare@ || seq_starts_with(did@, prefixed@)),
{
    str_eq(did, bare) || str_starts_with(did, prefixed)
}

/// Whether `s` holds the character `c`.
fn has_char(s: &str, c: char) -> (r: bool)
    ensures
        r == s@.contains(c),
{
    let cs = chars_of(s);
    let mut i: usize = 0;
    while i < cs.len()
        invariant
            cs@ == s@,
            i <= cs@.len(),
            forall|j: int| 0 <= j < i ==> cs@[j] != c,
        decreases cs@.len() - i,
    {
        if cs[i] == c {
            assert(s@[i as int] == c);
            return true;
        }
        i = i + 1;
    }
    false
}

/// The URL of a DID's document, given the PLC directory's URL; the error
/// naming the DID where there is none.
pub fn did_document_url(did: &str, plc_url: &str) -> (r: Result<String, Error>)
    ensures
        match spec_did_document_url(did@, plc_url@) {
            Ok(u) => r matches Ok(s) && s@ == u,
            Err(f) => r matches Err(e) && spec_fault_error(e, did@, f),
        },
{
    proof {
        reveal_strlit("did:");
        reveal_strlit("did:plc");
        reveal_strlit("did:plc:");
        reveal_strlit("did:web");
        reveal_strlit("did:web:");
        reveal_strlit("plc");
        reveal_strlit("web");
        reveal_strlit(":");
        assert("did:plc"@ =~= "did:"@ + "plc"@ && "did:plc:"@ =~= "did:"@ + "plc"@ + ":"@);
        assert("did:web"@ =~= "did:"@ + "web"@ && "did:web:"@ =~= "did:"@ + "web"@ + ":"@);
    }
    if !str_starts_with(did, "did:") {
        return Err(Error::PoorlyFormattedDidError(String::from_str(did)));
    }
    if method_is(did, "did:plc", "did:plc:") {
        let mut url = String::from_str(plc_url);
        url.append("/");
        let encoded = encode_uri_component(did);
        url.append(encoded.as_str());
        return Ok(url);
    }
    if !method_is(did, "did:web", "did:web:") {
        return Err(Error::UnsupportedDidMethodError(String::from_str(did)));
    }
    let cs = chars_of(did);
    let id = if cs.len() > 8 { string_from_chars(&cs, 8) } else { String::new() };
    assert(id@ =~= spec_web_id(did@));
    if has_char(id.as_str(), ':') {
        return Err(Error::UnsupportedDidWebPathError(String::from_str(did)));
    }
    let host = match decode_uri_component(id.as_str()) {
        Ok(h) => h,
        Err(_) => return Err(Error::PoorlyFormattedDidError(String::from_str(did))),
    };
    if chars_of(host.as_str()).len() == 0 {
        return Err(Error::PoorlyFormattedDidError(String::from_str(did)));
    }
    let mut url = if str_eq(host.as_str(), "localhost") || str_starts_with(host.as_str(), "localhost:") {
        String::from_str("http://")
    } else {
        String::from_str("https://")
    };
    url.append(host.as_str());
    url.append("/.well-known/did.json");
    Ok(url)
}

} // verus!
