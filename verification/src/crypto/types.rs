//! Key algorithms and verification options.
use vstd::prelude::*;
use crate::crypto::constants::{
    p256_jwt_alg, secp256k1_jwt_alg, spec_p256_jwt_alg, spec_p256_prefix, spec_secp256k1_jwt_alg,
    spec_secp256k1_prefix,
};

verus! {

/// The two signature curves that did:key identifiers of this library carry.
#[derive(Clone, Copy, Debug, PartialEq, Eq, Structural)]
pub enum KeyAlg {
    P256,
    Secp256k1,
}

impl KeyAlg {
    /// Multicodec prefix of the curve's compressed public keys.
    pub open spec fn spec_prefix(self) -> Seq<u8> {
        match self {
            KeyAlg::P256 => spec_p256_prefix(),
            KeyAlg::Secp256k1 => spec_secp256k1_prefix(),
        }
    }

    /// JWT algorithm name of the curve.
    pub open spec fn spec_jwt_alg(self) -> Seq<char> {
        match self {
            KeyAlg::P256 => spec_p256_jwt_alg(),
            KeyAlg::Secp256k1 => spec_secp256k1_jwt_alg(),
        }
    }

    /// Multicodec prefix of the curve's compressed public keys.
    pub fn prefix(&self) -> (r: [u8; 2])
        ensures
            r@ == self.spec_prefix(),
    {
        match self {
            KeyAlg::P256 => {
                let r: [u8; 2] = [0x80, 0x24];
                assert(r@ =~= spec_p256_prefix());
                r
            },
            KeyAlg::Secp256k1 => {
                let r: [u8; 2] = [0xe7, 0x01];
                assert(r@ =~= spec_secp256k1_prefix());
                r
            },
        }
    }

    /// JWT algorithm name of the curve.
    pub fn jwt_alg(&self) -> (r: &'static str)
        ensures
            r@ == self.spec_jwt_alg(),
    {
        match self {
            KeyAlg::P256 => p256_jwt_alg(),
            KeyAlg::Secp256k1 => secp256k1_jwt_alg(),
        }
    }
}

/// A supported did:key curve: its multicodec prefix, its JWT algorithm name and
/// the curve whose encoding and signature functions serve it.
pub struct DidKeyPlugin {
    pub prefix: [u8; 2],
    pub jwt_alg: &'static str,
    pub alg: KeyAlg,
}

impl DidKeyPlugin {
    /// The plugin's fields agree with its curve.
    pub open spec fn wf(&self) -> bool {
        &&& self.prefix@ == self.alg.spec_prefix()
        &&& self.jwt_alg@ == self.alg.spec_jwt_alg()
    }

    /// The plugin of a curve.
    pub fn for_alg(alg: KeyAlg) -> (p: DidKeyPlugin)
        ensures
            p.wf(),
            p.alg == alg,
    {
        DidKeyPlugin { prefix: alg.prefix(), jwt_alg: alg.jwt_alg(), alg }
    }
}

/// Options of signature verification.
pub struct VerifyOptions {
    pub allow_malleable_sig: Option<bool>,
}

/// Whether options allow signatures in other than compact low-S form.
pub open spec fn spec_allow_malleable(opts: Option<VerifyOptions>) -> bool {
    match opts {
        Some(o) => match o.allow_malleable_sig {
            Some(b) => b,
            None => false,
        },
        None => false,
    }
}

/// Whether options allow signatures in other than compact low-S form.
pub fn allow_malleable(opts: Option<VerifyOptions>) -> (r: bool)
    ensures
        r == spec_allow_malleable(opts),
{
    match opts {
        Some(o) => match o.allow_malleable_sig {
            Some(b) => b,
            None => false,
        },
        None => false,
    }
}

} // verus!
