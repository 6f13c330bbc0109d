//! The caller-facing keystore: one backend bound at construction, with the
//! mnemonic and derivation workflows on top of the raw backend contract,
//! and the selector that selects and constructs the backend.

use vstd::prelude::*;
use crate::derivation::derive_key_pair_from_path;
use crate::derivation::derived_keypair;
use crate::derivation::opt_path_components;
use crate::derivation::path_allowed;
use crate::derivation::path_view;
use crate::primitives::generate_mnemonic_phrase;
use crate::primitives::mnemonic_to_seed;
use crate::primitives::phrase_valid;
use crate::primitives::seed_of_phrase;
use crate::primitives::word_count;
use crate::store::AccountKeystore;
use crate::store::FileBasedKeystore;
use crate::store::InMemKeystore;
use crate::store::contains_addr;
use crate::store::in_mem_views;
use crate::store::insert_view;
use crate::store::lemma_file_store_views_wf;
use crate::store::lemma_in_mem_store_views_wf;
use crate::store::loaded_views;
use crate::store::save_post;
use crate::store::views_wf;
use crate::types::DerivationPath;
use crate::types::KeyPairV;
use crate::types::KeystoreError;
use crate::types::PublicKey;
use crate::types::Signature;
use crate::types::SignatureScheme;
use crate::types::SuiAddress;
use crate::types::SuiKeyPair;
use crate::types::address_from;
use crate::types::kp_address;
use crate::types::signature_bytes_of;

verus! {

/// The backend a keystore is bound to.
pub enum KeystoreBackend {
    File(FileBasedKeystore),
    InMem(InMemKeystore),
}

/// The single-entry-point keystore: it holds exactly one backend, chosen at
/// construction, and adds the derivation and import workflows on top of the
/// backend's raw storage contract.
pub struct SuiKeystore {
    backend: KeystoreBackend,
}

/// The address that importing a phrase with a path and scheme yields: a
/// function of those three inputs alone.
pub open spec fn import_address(
    phrase: Seq<char>,
    path: Option<Seq<u32>>,
    scheme: SignatureScheme,
) -> Seq<u8> {
    kp_address(
        derived_keypair(seed_of_phrase(phrase), opt_path_components(path, scheme), scheme),
    )
}

/// Derivation determinism: importing from the same phrase, path and scheme
/// twice yields the same address both times, whatever stores are involved.
pub proof fn lemma_import_deterministic(
    phrase: Seq<char>,
    path: Option<Seq<u32>>,
    scheme: SignatureScheme,
    a1: Seq<u8>,
    a2: Seq<u8>,
)
    requires
        a1 == import_address(phrase, path, scheme),
        a2 == import_address(phrase, path, scheme),
    ensures
        a1 == a2,
{
}

/// The stored key pairs of a backend.
pub open spec fn backend_views(b: KeystoreBackend) -> Seq<KeyPairV> {
    match b {
        KeystoreBackend::File(f) => f.key_views(),
        KeystoreBackend::InMem(m) => m.key_views(),
    }
}

/// The internal invariant of a backend.
pub open spec fn backend_wf(b: KeystoreBackend) -> bool {
    match b {
        KeystoreBackend::File(f) => f.wf(),
        KeystoreBackend::InMem(m) => m.wf(),
    }
}

/// The persistence configuration of a backend: the path mutations must be
/// mirrored to, or nothing for the in-memory backend.
pub open spec fn backend_persist_path(b: KeystoreBackend) -> Option<Seq<char>> {
    match b {
        KeystoreBackend::File(f) => f.persist_path(),
        KeystoreBackend::InMem(m) => m.persist_path(),
    }
}

impl SuiKeystore {
    /// The stored key pairs of the bound backend.
    pub closed spec fn key_views(&self) -> Seq<KeyPairV> {
        backend_views(self.backend)
    }

    pub closed spec fn wf(&self) -> bool {
        backend_wf(self.backend)
    }

    /// The persistence configuration of the bound backend.
    pub closed spec fn persist_path(&self) -> Option<Seq<char>> {
        backend_persist_path(self.backend)
    }

    /// Bind a backend into a keystore.
    pub fn from(backend: KeystoreBackend) -> (r: SuiKeystore)
        ensures
            r.key_views() == backend_views(backend),
            r.wf() == backend_wf(backend),
            r.persist_path() == backend_persist_path(backend),
    {
        SuiKeystore { backend }
    }

    /// Add a key pair: pure delegation to the backend.
    pub fn add_key(&mut self, keypair: SuiKeyPair) -> (r: Result<(), KeystoreError>)
        requires
            old(self).wf(),
            keypair.wf(),
        ensures
            final(self).wf(),
            final(self).key_views() == insert_view(old(self).key_views(), keypair@),
            final(self).persist_path() == old(self).persist_path(),
            r is Ok,
    {
        match &mut self.backend {
            KeystoreBackend::File(f) => f.add_key(keypair),
            KeystoreBackend::InMem(m) => m.add_key(keypair),
        }
    }

    /// Sign a message with the key stored for `address`: pure delegation.
    pub fn sign(&self, address: &SuiAddress, msg: &[u8]) -> (r: Result<Signature, KeystoreError>)
        requires
            self.wf(),
        ensures
            r is Ok <==> contains_addr(self.key_views(), address@),
            r matches Ok(sig) ==> exists|i: int|
                0 <= i < self.key_views().len() && kp_address(#[trigger] self.key_views()[i])
                    == address@ && sig@ == (
                self.key_views()[i].scheme,
                signature_bytes_of(self.key_views()[i], msg@),
                ),
            r matches Err(e) ==> e matches KeystoreError::NotFound(a) && a@ == address@,
    {
        match &self.backend {
            KeystoreBackend::File(f) => f.sign(address, msg),
            KeystoreBackend::InMem(m) => m.sign(address, msg),
        }
    }

    /// The public half of every stored key.
    pub fn keys(&self) -> (r: Vec<PublicKey>)
        requires
            self.wf(),
        ensures
            r@.len() == self.key_views().len(),
            forall|i: int|
                0 <= i < r@.len() ==> (#[trigger] r@[i])@ == (
                    self.key_views()[i].scheme,
                    self.key_views()[i].public,
                ),
    {
        match &self.backend {
            KeystoreBackend::File(f) => f.keys(),
            KeystoreBackend::InMem(m) => m.keys(),
        }
    }

    /// The address of every stored key, derived from its public half.
    pub fn addresses(&self) -> (r: Vec<SuiAddress>)
        requires
            self.wf(),
        ensures
            r@.len() == self.key_views().len(),
            forall|i: int|
                0 <= i < r@.len() ==> (#[trigger] r@[i])@ == kp_address(self.key_views()[i])
                    && r@[i].wf(),
    {
        let pks = self.keys();
        let ghost v = self.key_views();
        let mut r: Vec<SuiAddress> = Vec::new();
        let mut i: usize = 0;
        while i < pks.len()
            invariant
                pks@.len() == v.len(),
                forall|j: int|
                    0 <= j < pks@.len() ==> (#[trigger] pks@[j])@ == (v[j].scheme, v[j].public),
                i <= pks@.len(),
                r@.len() == i,
                forall|j: int|
                    0 <= j < i ==> (#[trigger] r@[j])@ == kp_address(v[j]) && r@[j].wf(),
            decreases pks@.len() - i,
        {
            r.push(address_from(&pks[i]));
            i += 1;
        }
        r
    }

    /// Generate a fresh key: a new random 12-word mnemonic phrase, the key
    /// pair derived from it for the scheme and optional path, stored in the
    /// backend. Returns the new address, the phrase — the only backup of
    /// the key, never stored here — and the scheme. Fails exactly when the
    /// path is not acceptable for the scheme, and then stores nothing.
    pub fn generate_new_key(
        &mut self,
        key_scheme: SignatureScheme,
        derivation_path: Option<DerivationPath>,
    ) -> (r: Result<(SuiAddress, String, SignatureScheme), KeystoreError>)
        requires
            old(self).wf(),
        ensures
            final(self).wf(),
            final(self).persist_path() == old(self).persist_path(),
            ({
                let comps = opt_path_components(path_view(derivation_path), key_scheme);
                &&& r is Ok <==> path_allowed(key_scheme, comps)
                &&& r matches Ok((a, phrase, sch)) ==> ({
                    let kp = derived_keypair(seed_of_phrase(phrase@), comps, key_scheme);
                    &&& phrase_valid(phrase@)
                    &&& word_count(phrase@) == 12
                    &&& a@ == kp_address(kp)
                    &&& a.wf()
                    &&& sch == key_scheme
                    &&& final(self).key_views() == insert_view(old(self).key_views(), kp)
                })
                &&& r matches Err(e) ==> e == KeystoreError::DerivationFailed
                    && final(self).key_views() == old(self).key_views()
            }),
    {
        let phrase = generate_mnemonic_phrase();
        let seed = match mnemonic_to_seed(phrase.as_str()) {
            Some(seed) => seed,
            None => {
                proof {
                    assert(false);
                }
                return Err(KeystoreError::InvalidMnemonic);
            },
        };
        match derive_key_pair_from_path(seed.as_slice(), derivation_path, key_scheme) {
            Ok((address, keypair)) => {
                let added = self.add_key(keypair);
                proof {
                    assert(added is Ok);
                }
                Ok((address, phrase, key_scheme))
            },
            Err(e) => Err(e),
        }
    }

    /// Import the key selected by a mnemonic phrase, a scheme and an
    /// optional path. A malformed phrase is refused with InvalidMnemonic
    /// and an unacceptable path with DerivationFailed; nothing is stored on
    /// failure. Importing the same phrase, path and scheme again yields the
    /// same address and overwrites the stored key with an equal one.
    pub fn import_from_mnemonic(
        &mut self,
        phrase: &str,
        key_scheme: SignatureScheme,
        derivation_path: Option<DerivationPath>,
    ) -> (r: Result<SuiAddress, KeystoreError>)
        requires
            old(self).wf(),
        ensures
            final(self).wf(),
            final(self).persist_path() == old(self).persist_path(),
            !phrase_valid(phrase@) ==> (r matches Err(e) && e == KeystoreError::InvalidMnemonic
                && final(self).key_views() == old(self).key_views()),
            ({
                let comps = opt_path_components(path_view(derivation_path), key_scheme);
                let kp = derived_keypair(seed_of_phrase(phrase@), comps, key_scheme);
                &&& r is Ok <==> (phrase_valid(phrase@) && path_allowed(key_scheme, comps))
                &&& (phrase_valid(phrase@) && !path_allowed(key_scheme, comps)) ==> (
                r matches Err(e) && e == KeystoreError::DerivationFailed
                    && final(self).key_views() == old(self).key_views())
                &&& r matches Ok(a) ==> a@ == import_address(
                    phrase@,
                    path_view(derivation_path),
                    key_scheme,
                ) && a.wf() && final(self).key_views() == insert_view(old(self).key_views(), kp)
            }),
    {
        let seed = match mnemonic_to_seed(phrase) {
            Some(seed) => seed,
            None => {
                return Err(KeystoreError::InvalidMnemonic);
            },
        };
        match derive_key_pair_from_path(seed.as_slice(), derivation_path, key_scheme) {
            Ok((address, keypair)) => {
                let added = self.add_key(keypair);
                proof {
                    assert(added is Ok);
                }
                Ok(address)
            },
            Err(e) => Err(e),
        }
    }

    /// The serialized key set to persist after a mutating operation, where
    /// the bound backend is file-backed with a configured path; nothing for
    /// an in-memory backend, which does not persist. The in-memory state is
    /// committed before the caller writes: if the write then fails, disk
    /// lags memory until the next successful write.
    pub fn save_contents(&self) -> (r: Option<String>)
        requires
            self.wf(),
        ensures
            r is Some <==> self.persist_path() is Some,
            r matches Some(s) ==> save_post(self.key_views(), s@),
    {
        match &self.backend {
            KeystoreBackend::File(f) => f.save(),
            KeystoreBackend::InMem(_) => None,
        }
    }
}

/// A well-formed keystore holds well-formed key views, whichever backend it
/// is bound to: every stored key pair is well formed and no two stored keys
/// share an address.
pub proof fn lemma_keystore_views_wf(ks: &SuiKeystore)
    requires
        ks.wf(),
    ensures
        views_wf(ks.key_views()),
{
    match ks.backend {
        KeystoreBackend::File(ref f) => lemma_file_store_views_wf(f),
        KeystoreBackend::InMem(ref m) => lemma_in_mem_store_views_wf(m),
    }
}

/// The stored addresses of a well-formed keystore are pairwise distinct:
/// the store keeps exactly one key per address, so `addresses()` never
/// repeats an entry.
pub proof fn lemma_addresses_distinct(ks: &SuiKeystore, i: int, j: int)
    requires
        ks.wf(),
        0 <= i < j < ks.key_views().len(),
    ensures
        kp_address(ks.key_views()[i]) != kp_address(ks.key_views()[j]),
{
    lemma_keystore_views_wf(ks);
}

/// The backend selector: which backend to construct and its parameters — a
/// file path, or the number of synthetic keys to materialize.
pub enum KeystoreType {
    File(String),
    InMem(usize),
}

impl KeystoreType {
    /// Resolve the selector into a ready keystore. For a File selector the
    /// caller hands over the current contents of the file, or nothing where
    /// the file does not exist yet; an InMem selector materializes its
    /// deterministic keys.
    pub fn init(&self, contents: Option<&str>) -> (r: Result<SuiKeystore, KeystoreError>)
        requires
            self matches KeystoreType::InMem(n) ==> n * 32 <= usize::MAX,
        ensures
            self matches KeystoreType::InMem(n) ==> (r matches Ok(ks) && ks.wf()
                && ks.key_views() == in_mem_views(n as int) && ks.persist_path() is None),
            self matches KeystoreType::File(p) ==> match contents {
                None => r matches Ok(ks) && ks.wf() && ks.key_views() == Seq::<
                    KeyPairV,
                >::empty() && ks.persist_path() == Some(p@),
                Some(c) => match loaded_views(c@) {
                    Some(v) => r matches Ok(ks) && ks.wf() && ks.key_views() == v
                        && ks.persist_path() == Some(p@),
                    None => r matches Err(e) && e matches KeystoreError::StorageCorrupt(q) && q@
                        == p@,
                },
            },
    {
        match self {
            KeystoreType::File(path) => {
                match FileBasedKeystore::load_or_create(path.as_str(), contents) {
                    Ok(f) => Ok(SuiKeystore::from(KeystoreBackend::File(f))),
                    Err(e) => Err(e),
                }
            },
            KeystoreType::InMem(initial_key_number) => {
                let m = InMemKeystore::new(*initial_key_number);
                Ok(SuiKeystore::from(KeystoreBackend::InMem(m)))
            },
        }
    }
}

} // verus!
