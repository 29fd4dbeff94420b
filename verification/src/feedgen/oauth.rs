//! The Bluesky OAuth login of the settings site: its URLs, the issuer check
//! of the callback, and reading the user's DID out of an id token.
use vstd::prelude::*;
use crate::feedgen::auth::{spec_b64url_decode, spec_jwt_segments, spec_utf8_decode, split_jwt};
use crate::text::{chars_of, push_char};

verus! {

/// `pat` occurs in `s`.
pub open spec fn spec_contains(s: Seq<char>, pat: Seq<char>) -> bool {
    exists|i: int| 0 <= i && i + pat.len() <= s.len() && #[trigger] s.subrange(i, i + pat.len()) == pat
}

/// Whether `pat` occurs in `s`.
pub fn contains(s: &str, pat: &str) -> (r: bool)
    ensures
        r == spec_contains(s@, pat@),
{
    let sv = chars_of(s);
    let pv = chars_of(pat);
    if pv.len() > sv.len() {
        return false;
    }
    let mut i: usize = 0;
    while i <= sv.len() - pv.len()
        invariant
            sv@ == s@,
            pv@ == pat@,
            pv@.len() <= sv@.len(),
            i <= sv@.len() - pv@.len() + 1,
            forall|k: int| 0 <= k < i ==> #[trigger] s@.subrange(k, k + pat@.len()) != pat@,
        decreases sv@.len() - pv@.len() + 1 - i,
    {
        let mut j: usize = 0;
        while j < pv.len() && sv[i + j] == pv[j]
            invariant
                sv@ == s@,
                pv@ == pat@,
                i + pv@.len() <= sv@.len(),
                sv@.len() == sv.len(),
                pv@.len() == pv.len(),
                j <= pv@.len(),
                forall|t: int| 0 <= t < j ==> sv@[i + t] == pv@[t],
            decreases pv@.len() - j,
        {
            j = j + 1;
        }
        if j == pv.len() {
            assert(s@.subrange(i as int, i + pat@.len()) =~= pat@);
            return true;
        }
        assert(s@.subrange(i as int, i + pat@.len())[j as int] != pat@[j as int]);
        i = i + 1;
    }
    assert forall|k: int| 0 <= k && k + pat@.len() <= s@.len() implies #[trigger] s@.subrange(k, k + pat@.len()) != pat@ by {
        assert(k < i);
    }
    false
}

/// The scheme of the service's own URLs: `http` for a local host name,
/// `https` otherwise.
pub open spec fn spec_protocol(hostname: Seq<char>) -> Seq<char> {
    if spec_contains(hostname, "localhost"@) || spec_contains(hostname, "127.0.0.1"@) { "http"@ } else { "https"@ }
}

/// The scheme of the service's own URLs.
pub fn protocol(hostname: &str) -> (r: &'static str)
    ensures
        r@ == spec_protocol(hostname@),
{
    if contains(hostname, "localhost") || contains(hostname, "127.0.0.1") { "http" } else { "https" }
}

/// The OAuth client id: the URL of the client metadata document.
pub open spec fn spec_client_id(hostname: Seq<char>) -> Seq<char> {
    spec_protocol(hostname) + "://"@ + hostname + "/oauth/client-metadata.json"@
}

/// The OAuth redirect URI: the callback endpoint.
pub open spec fn spec_redirect_uri(hostname: Seq<char>) -> Seq<char> {
    spec_protocol(hostname) + "://"@ + hostname + "/auth/bluesky/callback"@
}

/// The OAuth client id.
pub fn client_id(hostname: &str) -> (r: String)
    ensures
        r@ == spec_client_id(hostname@),
{
    let mut r = String::from_str(protocol(hostname));
    r.append("://");
    r.append(hostname);
    r.append("/oauth/client-metadata.json");
    r
}

/// The OAuth redirect URI.
pub fn redirect_uri(hostname: &str) -> (r: String)
    ensures
        r@ == spec_redirect_uri(hostname@),
{
    let mut r = String::from_str(protocol(hostname));
    r.append("://");
    r.append(hostname);
    r.append("/auth/bluesky/callback");
    r
}

/// The PDS authorization URL that a login is sent to.
pub open spec fn spec_authorize_url(pds_url: Seq<char>, client_id: Seq<char>, redirect_uri: Seq<char>, state: Seq<char>) -> Seq<char> {
    pds_url + "/oauth/authorize?client_id="@ + client_id + "&redirect_uri="@ + redirect_uri
        + "&response_type=code&scope=atproto&state="@ + state
}

/// The PDS authorization URL that a login is sent to.
pub fn authorize_url(pds_url: &str, client_id: &str, redirect_uri: &str, state: &str) -> (r: String)
    ensures
        r@ == spec_authorize_url(pds_url@, client_id@, redirect_uri@, state@),
{
    let mut r = String::from_str(pds_url);
    r.append("/oauth/authorize?client_id=");
    r.append(client_id);
    r.append("&redirect_uri=");
    r.append(redirect_uri);
    r.append("&response_type=code&scope=atproto&state=");
    r.append(state);
    r
}

/// The PDS token endpoint.
pub fn token_url(pds_url: &str) -> (r: String)
    ensures
        r@ == pds_url@ + "/oauth/token"@,
{
    let mut r = String::from_str(pds_url);
    r.append("/oauth/token");
    r
}

/// `s` without its trailing `/` characters.
pub open spec fn spec_trim_slashes(s: Seq<char>) -> Seq<char>
    decreases s.len(),
{
    if s.len() > 0 && s.last() == '/' { spec_trim_slashes(s.drop_last()) } else { s }
}

/// `s` without its trailing `/` characters.
pub fn trim_trailing_slashes(s: &str) -> (r: String)
    ensures
        r@ == spec_trim_slashes(s@),
{
    let cs = chars_of(s);
    let mut n: usize = cs.len();
    assert(s@.take(n as int) =~= s@);
    while n > 0 && cs[n - 1] == '/'
        invariant
            cs@ == s@,
            n <= cs@.len(),
            spec_trim_slashes(s@) == spec_trim_slashes(s@.take(n as int)),
        decreases n,
    {
        assert(s@.take(n as int).drop_last() =~= s@.take(n - 1));
        n = n - 1;
    }
    let mut r = String::new();
    let mut i: usize = 0;
    while i < n
        invariant
            cs@ == s@,
            n <= cs@.len(),
            i <= n,
            r@ == s@.take(i as int),
        decreases n - i,
    {
        push_char(&mut r, cs[i]);
        assert(s@.take(i + 1) =~= s@.take(i as int).push(cs@[i as int]));
        i = i + 1;
    }
    r
}

/// The callback's issuer is the PDS the login started with, trailing slashes
/// aside.
pub fn issuer_matches(pds_url: &str, iss: &str) -> (r: bool)
    ensures
        r == (spec_trim_slashes(pds_url@) == spec_trim_slashes(iss@)),
{
    let a = trim_trailing_slashes(pds_url);
    let b = trim_trailing_slashes(iss);
    crate::text::str_eq(a.as_str(), b.as_str())
}

/// The payload JSON text of an id token: its second part, URL-safe base64 of
/// UTF-8 text, where the token has three parts.
pub open spec fn spec_id_token_payload(token: Seq<char>) -> Option<Seq<char>> {
    match spec_jwt_segments(token) {
        None => None,
        Some((h, p, s)) => match spec_b64url_decode(p) {
            None => None,
            Some(b) => spec_utf8_decode(b),
        },
    }
}

/// The payload JSON text of an id token, where it has one.
pub fn id_token_payload(token: &str) -> (r: Option<String>)
    ensures
        match spec_id_token_payload(token@) {
            Some(t) => r matches Some(x) && x@ == t,
            None => r is None,
        },
{
    let seg = match split_jwt(token) {
        Some(seg) => seg,
        None => return None,
    };
    crate::feedgen::auth::decode_url_json(seg.payload.as_str())
}

} // verus!
