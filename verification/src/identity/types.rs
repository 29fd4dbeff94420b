//! DID documents and the data read from them.
use vstd::prelude::*;
use crate::identity::cache::DidCache;

verus! {

/// The characters of each string of a list.
pub open spec fn strings_view(v: Seq<String>) -> Seq<Seq<char>> {
    v.map_values(|s: String| s@)
}

/// A copy of a list of strings.
pub fn clone_strings(v: &Vec<String>) -> (r: Vec<String>)
    ensures
        strings_view(r@) == strings_view(v@),
{
    let mut r: Vec<String> = Vec::new();
    let mut i: usize = 0;
    while i < v.len()
        invariant
            i <= v@.len(),
            strings_view(r@) == strings_view(v@.subrange(0, i as int)),
        decreases v@.len() - i,
    {
        let s = v[i].clone();
        r.push(s);
        i = i + 1;
        assert(strings_view(v@.subrange(0, i as int)) =~= strings_view(v@.subrange(0, i - 1 as int)).push(s@));
        assert(strings_view(r@) =~= strings_view(v@.subrange(0, i as int)));
    }
    assert(v@.subrange(0, v@.len() as int) =~= v@);
    r
}

/// A copy of an optional list of strings.
pub fn clone_opt_strings(v: &Option<Vec<String>>) -> (r: Option<Vec<String>>)
    ensures
        opt_strings_view(r) == opt_strings_view(*v),
{
    match v {
        Some(list) => Some(clone_strings(list)),
        None => None,
    }
}

/// The characters of each string of an optional list.
pub open spec fn opt_strings_view(v: Option<Vec<String>>) -> Option<Seq<Seq<char>>> {
    match v {
        Some(list) => Some(strings_view(list@)),
        None => None,
    }
}

/// The characters of an optional string.
pub open spec fn opt_string_view(v: Option<String>) -> Option<Seq<char>> {
    match v {
        Some(s) => Some(s@),
        None => None,
    }
}

/// A copy of an optional string.
pub fn clone_opt_string(v: &Option<String>) -> (r: Option<String>)
    ensures
        opt_string_view(r) == opt_string_view(*v),
{
    match v {
        Some(s) => Some(s.clone()),
        None => None,
    }
}

/// A verification method of a DID document.
#[derive(Debug)]
pub struct VerificationMethod {
    pub id: String,
    pub type_: String,
    pub controller: String,
    pub public_key_multibase: Option<String>,
}

/// The plain content of a verification method.
pub struct VerificationMethodView {
    pub id: Seq<char>,
    pub type_: Seq<char>,
    pub controller: Seq<char>,
    pub public_key_multibase: Option<Seq<char>>,
}

impl View for VerificationMethod {
    type V = VerificationMethodView;

    open spec fn view(&self) -> VerificationMethodView {
        VerificationMethodView {
            id: self.id@,
            type_: self.type_@,
            controller: self.controller@,
            public_key_multibase: opt_string_view(self.public_key_multibase),
        }
    }
}

impl VerificationMethod {
    /// A copy of the method.
    pub fn copy(&self) -> (r: VerificationMethod)
        ensures
            r@ == self@,
    {
        VerificationMethod {
            id: self.id.clone(),
            type_: self.type_.clone(),
            controller: self.controller.clone(),
            public_key_multibase: clone_opt_string(&self.public_key_multibase),
        }
    }
}

/// A service entry of a DID document.
#[derive(Debug)]
pub struct Service {
    pub id: String,
    pub type_: String,
    pub service_endpoint: String,
}

/// The plain content of a service entry.
pub struct ServiceView {
    pub id: Seq<char>,
    pub type_: Seq<char>,
    pub service_endpoint: Seq<char>,
}

impl View for Service {
    type V = ServiceView;

    open spec fn view(&self) -> ServiceView {
        ServiceView { id: self.id@, type_: self.type_@, service_endpoint: self.service_endpoint@ }
    }
}

impl Service {
    /// A copy of the service entry.
    pub fn copy(&self) -> (r: Service)
        ensures
            r@ == self@,
    {
        Service {
            id: self.id.clone(),
            type_: self.type_.clone(),
            service_endpoint: self.service_endpoint.clone(),
        }
    }
}

/// A DID document.
#[derive(Debug)]
pub struct DidDocument {
    pub context: Option<Vec<String>>,
    pub id: String,
    pub also_known_as: Option<Vec<String>>,
    pub verification_method: Option<Vec<VerificationMethod>>,
    pub service: Option<Vec<Service>>,
}

/// The plain content of a DID document.
pub struct DidDocumentView {
    pub context: Option<Seq<Seq<char>>>,
    pub id: Seq<char>,
    pub also_known_as: Option<Seq<Seq<char>>>,
    pub verification_method: Option<Seq<VerificationMethodView>>,
    pub service: Option<Seq<ServiceView>>,
}

/// The content of an optional list of verification methods.
pub open spec fn opt_methods_view(v: Option<Vec<VerificationMethod>>) -> Option<Seq<VerificationMethodView>> {
    match v {
        Some(list) => Some(list@.map_values(|m: VerificationMethod| m@)),
        None => None,
    }
}

/// The content of an optional list of services.
pub open spec fn opt_services_view(v: Option<Vec<Service>>) -> Option<Seq<ServiceView>> {
    match v {
        Some(list) => Some(list@.map_values(|s: Service| s@)),
        None => None,
    }
}

impl View for DidDocument {
    type V = DidDocumentView;

    open spec fn view(&self) -> DidDocumentView {
        DidDocumentView {
            context: opt_strings_view(self.context),
            id: self.id@,
            also_known_as: opt_strings_view(self.also_known_as),
            verification_method: opt_methods_view(self.verification_method),
            service: opt_services_view(self.service),
        }
    }
}

/// A copy of an optional list of verification methods.
fn clone_opt_methods(v: &Option<Vec<VerificationMethod>>) -> (r: Option<Vec<VerificationMethod>>)
    ensures
        opt_methods_view(r) == opt_methods_view(*v),
{
    match v {
        None => None,
        Some(list) => {
            let mut out: Vec<VerificationMethod> = Vec::new();
            let mut i: usize = 0;
            while i < list.len()
                invariant
                    i <= list@.len(),
                    out@.len() == i,
                    forall|j: int| 0 <= j < i ==> out@[j]@ == list@[j]@,
                decreases list@.len() - i,
            {
                let m = list[i].copy();
                out.push(m);
                i = i + 1;
            }
            assert(out@.map_values(|m: VerificationMethod| m@) =~= list@.map_values(|m: VerificationMethod| m@));
            Some(out)
        },
    }
}

/// A copy of an optional list of services.
fn clone_opt_services(v: &Option<Vec<Service>>) -> (r: Option<Vec<Service>>)
    ensures
        opt_services_view(r) == opt_services_view(*v),
{
    match v {
        None => None,
        Some(list) => {
            let mut out: Vec<Service> = Vec::new();
            let mut i: usize = 0;
            while i < list.len()
                invariant
                    i <= list@.len(),
                    out@.len() == i,
                    forall|j: int| 0 <= j < i ==> out@[j]@ == list@[j]@,
                decreases list@.len() - i,
            {
                let s = list[i].copy();
                out.push(s);
                i = i + 1;
            }
            assert(out@.map_values(|s: Service| s@) =~= list@.map_values(|s: Service| s@));
            Some(out)
        },
    }
}

impl DidDocument {
    /// A copy of the document.
    pub fn copy(&self) -> (r: DidDocument)
        ensures
            r@ == self@,
    {
        DidDocument {
            context: clone_opt_strings(&self.context),
            id: self.id.clone(),
            also_known_as: clone_opt_strings(&self.also_known_as),
            verification_method: clone_opt_methods(&self.verification_method),
            service: clone_opt_services(&self.service),
        }
    }
}

/// Options of the identity resolver; timeouts are in milliseconds.
pub struct IdentityResolverOpts {
    pub timeout_ms: Option<u64>,
    pub plc_url: Option<String>,
    pub did_cache: Option<DidCache>,
    pub backup_nameservers: Option<Vec<String>>,
}

/// Options of the handle resolver; the timeout is in milliseconds.
pub struct HandleResolverOpts {
    pub timeout_ms: Option<u64>,
    pub backup_nameservers: Option<Vec<String>>,
}

/// Options of the DID resolver; the timeout is in milliseconds.
pub struct DidResolverOpts {
    pub timeout_ms: Option<u64>,
    pub plc_url: Option<String>,
    pub did_cache: DidCache,
}

/// The atproto data of a DID: its signing key as a did:key, its handle and
/// the endpoint of its personal data server.
#[derive(Debug)]
pub struct AtprotoData {
    pub did: String,
    pub signing_key: String,
    pub handle: String,
    pub pds: String,
}

} // verus!
