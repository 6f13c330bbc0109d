//! Deterministic key derivation: from a seed, an optional derivation path
//! and a scheme to a key pair and its address. The derived secret is a
//! one-way digest of the seed, the path components and the scheme tag, so
//! the same inputs always select the same key.

use vstd::prelude::*;
use crate::primitives::sha256_of;
use crate::primitives::sha256_digest;
use crate::types::DerivationPath;
use crate::types::KeyPairV;
use crate::types::KeystoreError;
use crate::types::SignatureScheme;
use crate::types::SuiAddress;
use crate::types::SuiKeyPair;
use crate::types::address_from;
use crate::types::append_bytes;
use crate::types::kp_address;
use crate::types::public_of;

verus! {

/// The bit that marks a hardened path component.
pub const HARDENED_OFFSET: u32 = 0x8000_0000;

/// The default derivation path for each scheme, used when the caller
/// supplies none.
pub open spec fn default_components(scheme: SignatureScheme) -> Seq<u32> {
    match scheme {
        SignatureScheme::Ed25519 => seq![
            0x8000002Cu32,
            0x80000310u32,
            0x80000000u32,
            0x80000000u32,
            0x80000000u32,
        ],
        SignatureScheme::Secp256k1 => seq![
            0x80000036u32,
            0x80000310u32,
            0x80000000u32,
            0u32,
            0u32,
        ],
    }
}

/// Build the default path of a scheme.
pub fn default_path(scheme: SignatureScheme) -> (r: Vec<u32>)
    ensures
        r@ == default_components(scheme),
{
    let mut r: Vec<u32> = Vec::new();
    match scheme {
        SignatureScheme::Ed25519 => {
            r.push(0x8000002Cu32);
            r.push(0x80000310u32);
            r.push(0x80000000u32);
            r.push(0x80000000u32);
            r.push(0x80000000u32);
        },
        SignatureScheme::Secp256k1 => {
            r.push(0x80000036u32);
            r.push(0x80000310u32);
            r.push(0x80000000u32);
            r.push(0u32);
            r.push(0u32);
        },
    }
    proof {
        assert(r@ =~= default_components(scheme));
    }
    r
}

/// Whether a path is acceptable for a scheme: Ed25519 derivation demands a
/// fully hardened path; Secp256k1 accepts any components.
pub open spec fn path_allowed(scheme: SignatureScheme, comps: Seq<u32>) -> bool {
    match scheme {
        SignatureScheme::Ed25519 => forall|i: int|
            0 <= i < comps.len() ==> comps[i] >= HARDENED_OFFSET,
        SignatureScheme::Secp256k1 => true,
    }
}

/// The four little-endian bytes of one path component.
pub open spec fn u32_le_bytes(c: u32) -> Seq<u8> {
    seq![
        (c % 256) as u8,
        ((c / 256) % 256) as u8,
        ((c / 65536) % 256) as u8,
        ((c / 16777216) % 256) as u8,
    ]
}

/// All path components in order, each as four little-endian bytes.
pub open spec fn components_bytes(comps: Seq<u32>) -> Seq<u8>
    decreases comps.len(),
{
    if comps.len() == 0 {
        Seq::empty()
    } else {
        components_bytes(comps.drop_last()) + u32_le_bytes(comps.last())
    }
}

/// The byte material a key is derived from: the seed, then the path
/// components, then the scheme tag.
pub open spec fn derive_material(seed: Seq<u8>, comps: Seq<u32>, scheme: SignatureScheme) -> Seq<
    u8,
> {
    seed + components_bytes(comps) + seq![scheme.flag_spec()]
}

/// The key pair a seed, path and scheme derive.
pub open spec fn derived_keypair(
    seed: Seq<u8>,
    comps: Seq<u32>,
    scheme: SignatureScheme,
) -> KeyPairV {
    let secret = sha256_of(derive_material(seed, comps, scheme));
    KeyPairV { scheme, secret, public: public_of(scheme, secret) }
}

/// The components derivation works with: the given ones, or the scheme's
/// default path.
pub open spec fn opt_path_components(
    path: Option<Seq<u32>>,
    scheme: SignatureScheme,
) -> Seq<u32> {
    match path {
        Some(c) => c,
        None => default_components(scheme),
    }
}

/// The view of an optional path argument.
pub open spec fn path_view(path: Option<DerivationPath>) -> Option<Seq<u32>> {
    match path {
        Some(p) => Some(p@),
        None => None,
    }
}

/// Decide whether a path is acceptable for a scheme.
pub fn path_is_allowed(scheme: SignatureScheme, comps: &Vec<u32>) -> (r: bool)
    ensures
        r == path_allowed(scheme, comps@),
{
    match scheme {
        SignatureScheme::Secp256k1 => true,
        SignatureScheme::Ed25519 => {
            let mut i: usize = 0;
            while i < comps.len()
                invariant
                    scheme == SignatureScheme::Ed25519,
                    i <= comps@.len(),
                    forall|j: int| 0 <= j < i ==> comps@[j] >= HARDENED_OFFSET,
                decreases comps@.len() - i,
            {
                if comps[i] < HARDENED_OFFSET {
                    proof {
                        assert(scheme == SignatureScheme::Ed25519);
                        assert((i as int) < comps@.len() && comps@[i as int] < HARDENED_OFFSET);
                        assert(!path_allowed(scheme, comps@)) by {
                            if path_allowed(scheme, comps@) {
                                assert(comps@[i as int] >= HARDENED_OFFSET);
                            }
                        }
                    }
                    return false;
                }
                i += 1;
            }
            true
        },
    }
}

/// Derive the key pair and address selected by a seed, an optional
/// derivation path and a scheme. Fails exactly when the path is not
/// acceptable for the scheme, and then derives nothing.
pub fn derive_key_pair_from_path(
    seed: &[u8],
    derivation_path: Option<DerivationPath>,
    key_scheme: SignatureScheme,
) -> (r: Result<(SuiAddress, SuiKeyPair), KeystoreError>)
    ensures
        ({
            let comps = opt_path_components(path_view(derivation_path), key_scheme);
            &&& r is Ok <==> path_allowed(key_scheme, comps)
            &&& r matches Ok((a, kp)) ==> kp@ == derived_keypair(seed@, comps, key_scheme)
                && kp.wf() && a@ == kp_address(kp@) && a.wf()
            &&& r matches Err(e) ==> e == KeystoreError::DerivationFailed
        }),
{
    let comps: Vec<u32> = match derivation_path {
        Some(p) => p.into_components(),
        None => default_path(key_scheme),
    };
    if !path_is_allowed(key_scheme, &comps) {
        return Err(KeystoreError::DerivationFailed);
    }
    let mut material: Vec<u8> = Vec::new();
    append_bytes(&mut material, seed);
    let mut i: usize = 0;
    while i < comps.len()
        invariant
            i <= comps@.len(),
            material@ == seed@ + components_bytes(comps@.take(i as int)),
        decreases comps@.len() - i,
    {
        let c = comps[i];
        material.push((c % 256) as u8);
        material.push(((c / 256) % 256) as u8);
        material.push(((c / 65536) % 256) as u8);
        material.push(((c / 16777216) % 256) as u8);
        proof {
            assert(comps@.take(i as int + 1).drop_last() =~= comps@.take(i as int));
            assert(comps@.take(i as int + 1).last() == comps@[i as int]);
            assert(material@ =~= seed@ + components_bytes(comps@.take(i as int + 1)));
        }
        i += 1;
    }
    material.push(key_scheme.flag());
    proof {
        assert(comps@.take(comps@.len() as int) =~= comps@);
        assert(material@ =~= derive_material(seed@, comps@, key_scheme));
    }
    let secret = sha256_digest(material.as_slice());
    let kp = SuiKeyPair::from_secret(key_scheme, secret);
    proof {
        assert(kp@ =~= derived_keypair(seed@, comps@, key_scheme));
    }
    let pkey = kp.public();
    let addr = address_from(&pkey);
    Ok((addr, kp))
}

/// Derivation is deterministic: the same seed, path and scheme always give
/// the same key pair, and so the same address.
pub proof fn lemma_derivation_deterministic(
    seed: Seq<u8>,
    comps: Seq<u32>,
    scheme: SignatureScheme,
    kp1: KeyPairV,
    kp2: KeyPairV,
)
    requires
        kp1 == derived_keypair(seed, comps, scheme),
        kp2 == derived_keypair(seed, comps, scheme),
    ensures
        kp1 == kp2,
        kp_address(kp1) == kp_address(kp2),
{
}

} // verus!
