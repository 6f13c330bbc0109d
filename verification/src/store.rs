//! The keystore backends: a capability trait (sign, add a key, list keys)
//! with a file-backed and an in-memory implementation. The mapping from
//! addresses to key pairs keeps one key per address — adding a key replaces
//! any key already stored at its address — and every stored address is the
//! one derived from its key pair.

use vstd::prelude::*;
use crate::codec::decoded_keypair;
use crate::primitives::json_decode_strings;
use crate::primitives::json_encode_strings;
use crate::primitives::json_strings_parsed;
use crate::primitives::synthetic_bytes;
use crate::primitives::synthetic_stream;
use crate::types::KeyPairV;
use crate::types::KeystoreError;
use crate::types::PublicKey;
use crate::types::Signature;
use crate::types::SignatureScheme;
use crate::types::SuiAddress;
use crate::types::SuiKeyPair;
use crate::types::address_from;
use crate::types::copy_range;
use crate::types::kp_address;
use crate::types::kp_wf;
use crate::types::public_of;
use crate::types::signature_bytes_of;

verus! {

/// One stored entry: a key pair and the address derived from it.
struct KeyRecord {
    address: SuiAddress,
    keypair: SuiKeyPair,
}

/// A stored record is well formed when its address is the one derived from
/// its key pair.
spec fn rec_wf(r: KeyRecord) -> bool {
    &&& r.keypair.wf()
    &&& r.address@ == kp_address(r.keypair@)
    &&& r.address.wf()
}

spec fn recs_wf(records: Seq<KeyRecord>) -> bool {
    &&& forall|i: int| 0 <= i < records.len() ==> rec_wf(#[trigger] records[i])
    &&& forall|i: int, j: int|
        0 <= i < j < records.len() ==> records[i].address@ != records[j].address@
}

spec fn recs_views(records: Seq<KeyRecord>) -> Seq<KeyPairV> {
    records.map(|i: int, r: KeyRecord| r.keypair@)
}

/// A sequence of stored key views is well formed: every entry is a
/// well-formed key pair and no two entries share an address.
pub open spec fn views_wf(s: Seq<KeyPairV>) -> bool {
    &&& forall|i: int| 0 <= i < s.len() ==> kp_wf(#[trigger] s[i])
    &&& forall|i: int, j: int|
        0 <= i < j < s.len() ==> kp_address(s[i]) != kp_address(s[j])
}

/// Whether some stored key has the given address.
pub open spec fn contains_addr(s: Seq<KeyPairV>, a: Seq<u8>) -> bool {
    exists|i: int| 0 <= i < s.len() && kp_address(#[trigger] s[i]) == a
}

/// The index of the stored key with the given address.
pub open spec fn addr_index(s: Seq<KeyPairV>, a: Seq<u8>) -> int {
    choose|i: int| 0 <= i < s.len() && kp_address(#[trigger] s[i]) == a
}

/// The store after adding a key pair: an existing key with the same address
/// is replaced, otherwise the key is appended.
pub open spec fn insert_view(s: Seq<KeyPairV>, kp: KeyPairV) -> Seq<KeyPairV> {
    if contains_addr(s, kp_address(kp)) {
        s.update(addr_index(s, kp_address(kp)), kp)
    } else {
        s.push(kp)
    }
}

/// The store built by adding a sequence of key pairs in order.
pub open spec fn build_views(kps: Seq<KeyPairV>) -> Seq<KeyPairV>
    decreases kps.len(),
{
    if kps.len() == 0 {
        Seq::empty()
    } else {
        insert_view(build_views(kps.drop_last()), kps.last())
    }
}

proof fn lemma_recs_views_wf(records: Seq<KeyRecord>)
    requires
        recs_wf(records),
    ensures
        views_wf(recs_views(records)),
{
    let v = recs_views(records);
    assert forall|i: int| 0 <= i < v.len() implies kp_wf(#[trigger] v[i]) by {
        assert(rec_wf(records[i]));
    }
    assert forall|i: int, j: int| 0 <= i < j < v.len() implies kp_address(v[i]) != kp_address(
        v[j],
    ) by {
        assert(rec_wf(records[i]));
        assert(rec_wf(records[j]));
        assert(records[i].address@ != records[j].address@);
    }
}

/// The capability contract of a keystore backend, shareable across threads
/// (callers must still serialize mutation externally).
pub trait AccountKeystore: Sized + Send + Sync {
    /// The stored key pairs, in storage order.
    spec fn key_views(&self) -> Seq<KeyPairV>;

    /// The backend's internal invariant.
    spec fn wf(&self) -> bool;

    /// The persistence configuration: the path of the backing file a
    /// mutation must be mirrored to, or nothing for a backend that does not
    /// persist.
    spec fn persist_path(&self) -> Option<Seq<char>>;

    /// Sign a message with the key stored for `address`; an address with no
    /// stored key is refused with `NotFound` carrying that address.
    fn sign(&self, address: &SuiAddress, msg: &[u8]) -> (r: Result<Signature, KeystoreError>)
        requires
            self.wf(),
        ensures
            r is Ok <==> contains_addr(self.key_views(), address@),
            r matches Ok(sig) ==> exists|i: int|
                0 <= i < self.key_views().len() && kp_address(#[trigger] self.key_views()[i])
                    == address@ && sig@ == (
                self.key_views()[i].scheme,
                signature_bytes_of(self.key_views()[i], msg@),
                ),
            r matches Err(e) ==> e matches KeystoreError::NotFound(a) && a@ == address@,
    ;

    /// Add a key pair under the address derived from its public key; an
    /// existing key at that address is replaced.
    fn add_key(&mut self, keypair: SuiKeyPair) -> (r: Result<(), KeystoreError>)
        requires
            old(self).wf(),
            keypair.wf(),
        ensures
            final(self).wf(),
            final(self).key_views() == insert_view(old(self).key_views(), keypair@),
            final(self).persist_path() == old(self).persist_path(),
            r is Ok,
    ;

    /// The public half of every stored key, in storage order.
    fn keys(&self) -> (r: Vec<PublicKey>)
        requires
            self.wf(),
        ensures
            r@.len() == self.key_views().len(),
            forall|i: int|
                0 <= i < r@.len() ==> (#[trigger] r@[i])@ == (
                    self.key_views()[i].scheme,
                    self.key_views()[i].public,
                ),
    ;
}

/// Find the record stored under an address.
fn find_record(records: &Vec<KeyRecord>, address: &SuiAddress) -> (r: Option<usize>)
    requires
        recs_wf(records@),
    ensures
        r matches Some(i) ==> (i as int) < records@.len() && records@[i as int].address@
            == address@ && contains_addr(recs_views(records@), address@) && addr_index(
            recs_views(records@),
            address@,
        ) == i as int,
        r is None ==> !contains_addr(recs_views(records@), address@),
{
    let ghost v = recs_views(records@);
    let mut i: usize = 0;
    while i < records.len()
        invariant
            recs_wf(records@),
            v == recs_views(records@),
            i <= records@.len(),
            forall|j: int| 0 <= j < i ==> records@[j].address@ != address@,
        decreases records@.len() - i,
    {
        if records[i].address.same_address(address) {
            proof {
                assert(rec_wf(records@[i as int]));
                assert(kp_address(v[i as int]) == address@);
                assert(contains_addr(v, address@));
                let w = addr_index(v, address@);
                assert(0 <= w < v.len() && kp_address(v[w]) == address@);
                if w != i as int {
                    assert(rec_wf(records@[w]));
                    assert(records@[w].address@ == records@[i as int].address@);
                    assert(false);
                }
            }
            return Some(i);
        }
        i += 1;
    }
    proof {
        if contains_addr(v, address@) {
            let w = addr_index(v, address@);
            assert(0 <= w < v.len() && kp_address(v[w]) == address@);
            assert(rec_wf(records@[w]));
            assert(records@[w].address@ == address@);
        }
    }
    None
}

/// Insert a key pair under its derived address, replacing any key already
/// stored there.
fn insert_record(records: &mut Vec<KeyRecord>, keypair: SuiKeyPair)
    requires
        recs_wf(old(records)@),
        keypair.wf(),
    ensures
        recs_wf(final(records)@),
        recs_views(final(records)@) == insert_view(recs_views(old(records)@), keypair@),
{
    let ghost v0 = recs_views(old(records)@);
    let pkey = keypair.public();
    let address = address_from(&pkey);
    proof {
        assert(address@ == kp_address(keypair@));
    }
    match find_record(records, &address) {
        Some(i) => {
            records.remove(i);
            records.insert(i, KeyRecord { address, keypair });
            proof {
                let rec = final(records)@[i as int];
                assert(final(records)@ =~= old(records)@.update(i as int, rec));
                assert(rec_wf(rec));
                assert forall|a: int, b: int|
                    0 <= a < b < final(records)@.len() implies final(records)@[a].address@
                    != final(records)@[b].address@ by {
                    assert(old(records)@[a].address@ != old(records)@[b].address@);
                    assert(old(records)@[i as int].address@ == address@);
                }
                assert(recs_views(final(records)@) =~= insert_view(v0, keypair@));
            }
        },
        None => {
            records.push(KeyRecord { address, keypair });
            proof {
                assert(final(records)@ =~= old(records)@.push(final(records)@.last()));
                assert forall|a: int, b: int|
                    0 <= a < b < final(records)@.len() implies final(records)@[a].address@
                    != final(records)@[b].address@ by {
                    if b < final(records)@.len() - 1 {
                        assert(old(records)@[a].address@ != old(records)@[b].address@);
                    } else {
                        assert(rec_wf(old(records)@[a]));
                        assert(kp_address(v0[a]) == old(records)@[a].address@);
                        assert(!contains_addr(v0, address@));
                    }
                }
                assert(recs_views(final(records)@) =~= insert_view(v0, keypair@));
            }
        },
    }
}

/// Sign with the key stored under an address.
fn sign_with(records: &Vec<KeyRecord>, address: &SuiAddress, msg: &[u8]) -> (r: Result<
    Signature,
    KeystoreError,
>)
    requires
        recs_wf(records@),
    ensures
        r is Ok <==> contains_addr(recs_views(records@), address@),
        r matches Ok(sig) ==> exists|i: int|
            0 <= i < recs_views(records@).len() && kp_address(
                #[trigger] recs_views(records@)[i],
            ) == address@ && sig@ == (
            recs_views(records@)[i].scheme,
            signature_bytes_of(recs_views(records@)[i], msg@),
            ),
        r matches Err(e) ==> e matches KeystoreError::NotFound(a) && a@ == address@,
{
    match find_record(records, address) {
        Some(i) => {
            let sig = records[i].keypair.try_sign(msg);
            proof {
                let v = recs_views(records@);
                assert(rec_wf(records@[i as int]));
                assert(kp_address(v[i as int]) == address@);
                assert(sig@ == (v[i as int].scheme, signature_bytes_of(v[i as int], msg@)));
            }
            Ok(sig)
        },
        None => Err(KeystoreError::NotFound(address.clone())),
    }
}

/// The public half of every stored key.
fn keys_of(records: &Vec<KeyRecord>) -> (r: Vec<PublicKey>)
    requires
        recs_wf(records@),
    ensures
        r@.len() == recs_views(records@).len(),
        forall|i: int|
            0 <= i < r@.len() ==> (#[trigger] r@[i])@ == (
                recs_views(records@)[i].scheme,
                recs_views(records@)[i].public,
            ),
{
    let mut r: Vec<PublicKey> = Vec::new();
    let mut i: usize = 0;
    while i < records.len()
        invariant
            recs_wf(records@),
            i <= records@.len(),
            r@.len() == i,
            forall|j: int|
                0 <= j < i ==> (#[trigger] r@[j])@ == (
                    recs_views(records@)[j].scheme,
                    recs_views(records@)[j].public,
                ),
        decreases records@.len() - i,
    {
        r.push(records[i].keypair.public());
        i += 1;
    }
    r
}

/// What a successful `save` produces: a JSON array of strings, one per
/// stored key in storage order, each decoding back to that key.
pub open spec fn save_post(v: Seq<KeyPairV>, s: Seq<char>) -> bool {
    &&& json_strings_parsed(s) is Some
    &&& json_strings_parsed(s).unwrap().len() == v.len()
    &&& forall|i: int|
        0 <= i < v.len() ==> decoded_keypair(#[trigger] json_strings_parsed(s).unwrap()[i])
            == Some(v[i])
}

/// Whether every entry of a persisted array decodes as a key pair.
pub open spec fn all_entries_decode(strs: Seq<Seq<char>>) -> bool {
    forall|i: int| 0 <= i < strs.len() ==> decoded_keypair(#[trigger] strs[i]) is Some
}

/// The key views decoded from a persisted array.
pub open spec fn decoded_views(strs: Seq<Seq<char>>) -> Seq<KeyPairV> {
    strs.map(|i: int, s: Seq<char>| decoded_keypair(s).unwrap())
}

/// What loading a persisted text yields: the store built from the decoded
/// keys, or nothing where the text or any entry is malformed.
pub open spec fn loaded_views(c: Seq<char>) -> Option<Seq<KeyPairV>> {
    match json_strings_parsed(c) {
        None => None,
        Some(strs) => if all_entries_decode(strs) {
            Some(build_views(decoded_views(strs)))
        } else {
            None
        },
    }
}

/// The file-backed keystore: the key mapping in memory plus the path of the
/// backing file. The file itself is read and written by the caller; this
/// type decodes stored text and produces the text to store.
pub struct FileBasedKeystore {
    records: Vec<KeyRecord>,
    path: Option<String>,
}

impl AccountKeystore for FileBasedKeystore {
    closed spec fn key_views(&self) -> Seq<KeyPairV> {
        recs_views(self.records@)
    }

    closed spec fn wf(&self) -> bool {
        recs_wf(self.records@)
    }

    open spec fn persist_path(&self) -> Option<Seq<char>> {
        self.path_spec()
    }

    fn sign(&self, address: &SuiAddress, msg: &[u8]) -> (r: Result<Signature, KeystoreError>) {
        sign_with(&self.records, address, msg)
    }

    fn add_key(&mut self, keypair: SuiKeyPair) -> (r: Result<(), KeystoreError>) {
        insert_record(&mut self.records, keypair);
        Ok(())
    }

    fn keys(&self) -> (r: Vec<PublicKey>) {
        keys_of(&self.records)
    }
}

impl FileBasedKeystore {
    /// The configured path of the backing file, if any.
    pub closed spec fn path_spec(&self) -> Option<Seq<char>> {
        match self.path {
            Some(p) => Some(p@),
            None => None,
        }
    }

    /// Decode a persisted keystore text into a ready store, or start empty
    /// where no file exists yet. A text whose array or entries are
    /// malformed is refused with `StorageCorrupt` naming the path.
    pub fn load_or_create(path: &str, contents: Option<&str>) -> (r: Result<
        FileBasedKeystore,
        KeystoreError,
    >)
        ensures
            r matches Ok(ks) ==> ks.wf() && ks.path_spec() == Some(path@),
            contents is None ==> (r matches Ok(ks) && ks.key_views() == Seq::<KeyPairV>::empty()),
            contents matches Some(c) ==> match loaded_views(c@) {
                Some(v) => r matches Ok(ks) && ks.key_views() == v,
                None => r matches Err(e) && e matches KeystoreError::StorageCorrupt(q) && q@
                    == path@,
            },
    {
        match contents {
            None => {
                let ks = FileBasedKeystore {
                    records: Vec::new(),
                    path: Some(path.to_string()),
                };
                proof {
                    assert(ks.key_views() =~= Seq::<KeyPairV>::empty());
                }
                Ok(ks)
            },
            Some(c) => {
                match json_decode_strings(c) {
                    None => Err(KeystoreError::StorageCorrupt(path.to_string())),
                    Some(strs) => {
                        let ghost gstrs = json_strings_parsed(c@).unwrap();
                        proof {
                            assert(gstrs == strs@.map(|i: int, x: String| x@));
                        }
                        let mut records: Vec<KeyRecord> = Vec::new();
                        let mut i: usize = 0;
                        while i < strs.len()
                            invariant
                                i <= strs@.len(),
                                contents == Some(c),
                                json_strings_parsed(c@) == Some(gstrs),
                                gstrs == strs@.map(|k: int, x: String| x@),
                                forall|j: int|
                                    0 <= j < i ==> decoded_keypair(#[trigger] gstrs[j]) is Some,
                                recs_wf(records@),
                                recs_views(records@) == build_views(
                                    decoded_views(gstrs.take(i as int)),
                                ),
                            decreases strs@.len() - i,
                        {
                            proof {
                                assert(gstrs[i as int] == strs@[i as int]@);
                            }
                            match SuiKeyPair::decode_base64(strs[i].as_str()) {
                                None => {
                                    proof {
                                        assert(decoded_keypair(gstrs[i as int]) is None);
                                        assert(!all_entries_decode(gstrs)) by {
                                            if all_entries_decode(gstrs) {
                                                assert(decoded_keypair(gstrs[i as int]) is Some);
                                            }
                                        }
                                    }
                                    return Err(KeystoreError::StorageCorrupt(path.to_string()));
                                },
                                Some(kp) => {
                                    insert_record(&mut records, kp);
                                    proof {
                                        let pre = decoded_views(gstrs.take(i as int));
                                        let cur = decoded_views(gstrs.take(i as int + 1));
                                        assert(cur.drop_last() =~= pre);
                                        assert(cur.last() == kp@);
                                        assert(recs_views(records@) == build_views(cur));
                                    }
                                },
                            }
                            i += 1;
                        }
                        proof {
                            assert(gstrs.take(strs@.len() as int) =~= gstrs);
                            assert(all_entries_decode(gstrs));
                        }
                        Ok(FileBasedKeystore { records, path: Some(path.to_string()) })
                    },
                }
            },
        }
    }

    /// Point the store at a (new) backing file path.
    pub fn set_path(&mut self, path: &str)
        ensures
            final(self).path_spec() == Some(path@),
            final(self).key_views() == old(self).key_views(),
            final(self).wf() == old(self).wf(),
    {
        self.path = Some(path.to_string());
    }

    /// Serialize the full key set as the text to write to the backing file.
    /// With no path configured there is nothing to persist and `save`
    /// yields nothing, successfully.
    pub fn save(&self) -> (r: Option<String>)
        requires
            self.wf(),
        ensures
            r is Some <==> self.path_spec() is Some,
            r matches Some(s) ==> save_post(self.key_views(), s@),
    {
        if self.path.is_none() {
            return None;
        }
        let ghost v = self.key_views();
        let mut strs: Vec<String> = Vec::new();
        let mut i: usize = 0;
        while i < self.records.len()
            invariant
                recs_wf(self.records@),
                v == recs_views(self.records@),
                i <= self.records@.len(),
                strs@.len() == i,
                forall|j: int|
                    0 <= j < i ==> decoded_keypair((#[trigger] strs@[j])@) == Some(v[j]),
            decreases self.records@.len() - i,
        {
            proof {
                assert(rec_wf(self.records@[i as int]));
            }
            let s = self.records[i].keypair.encode_base64();
            strs.push(s);
            i += 1;
        }
        let text = json_encode_strings(&strs);
        proof {
            let gstrs = json_strings_parsed(text@).unwrap();
            assert(gstrs == strs@.map(|k: int, x: String| x@));
            assert forall|j: int| 0 <= j < v.len() implies decoded_keypair(#[trigger] gstrs[j])
                == Some(v[j]) by {
                assert(gstrs[j] == strs@[j]@);
            }
        }
        Some(text)
    }

    /// The stored key pairs themselves.
    pub fn key_pairs(&self) -> (r: Vec<SuiKeyPair>)
        requires
            self.wf(),
        ensures
            r@.len() == self.key_views().len(),
            forall|i: int| 0 <= i < r@.len() ==> (#[trigger] r@[i])@ == self.key_views()[i],
    {
        let mut r: Vec<SuiKeyPair> = Vec::new();
        let mut i: usize = 0;
        while i < self.records.len()
            invariant
                recs_wf(self.records@),
                i <= self.records@.len(),
                r@.len() == i,
                forall|j: int|
                    0 <= j < i ==> (#[trigger] r@[j])@ == recs_views(self.records@)[j],
            decreases self.records@.len() - i,
        {
            r.push(self.records[i].keypair.clone());
            i += 1;
        }
        r
    }
}

impl Default for FileBasedKeystore {
    /// An empty store with no backing path: `save` is a no-op until a path
    /// is assigned.
    fn default() -> (r: FileBasedKeystore)
        ensures
            r.wf(),
            r.key_views() == Seq::<KeyPairV>::empty(),
            r.path_spec() is None,
    {
        let r = FileBasedKeystore { records: Vec::new(), path: None };
        proof {
            assert(r.key_views() =~= Seq::<KeyPairV>::empty());
        }
        r
    }
}

/// Adding keys whose addresses are already pairwise distinct rebuilds the
/// same sequence.
proof fn lemma_build_views_id(v: Seq<KeyPairV>)
    requires
        views_wf(v),
    ensures
        build_views(v) == v,
    decreases v.len(),
{
    if v.len() == 0 {
        assert(build_views(v) =~= v);
    } else {
        let pre = v.drop_last();
        assert(views_wf(pre)) by {
            assert(forall|i: int| 0 <= i < pre.len() ==> pre[i] == v[i]);
        }
        lemma_build_views_id(pre);
        assert(!contains_addr(pre, kp_address(v.last()))) by {
            if contains_addr(pre, kp_address(v.last())) {
                let w = addr_index(pre, kp_address(v.last()));
                assert(0 <= w < pre.len() && kp_address(pre[w]) == kp_address(v.last()));
                assert(kp_address(v[w]) != kp_address(v[v.len() - 1]));
            }
        }
        assert(build_views(v) == pre.push(v.last()));
        assert(pre.push(v.last()) =~= v);
    }
}

/// A well-formed file-backed store has well-formed key views: pairwise
/// distinct addresses and well-formed key pairs.
pub proof fn lemma_file_store_views_wf(ks: &FileBasedKeystore)
    requires
        ks.wf(),
    ensures
        views_wf(ks.key_views()),
{
    lemma_recs_views_wf(ks.records@);
}

/// A well-formed in-memory store has well-formed key views.
pub proof fn lemma_in_mem_store_views_wf(ks: &InMemKeystore)
    requires
        ks.wf(),
    ensures
        views_wf(ks.key_views()),
{
    lemma_recs_views_wf(ks.records@);
}

/// Store/load idempotence: loading the text that `save` produced for a
/// well-formed store yields exactly the stored key sequence — the same
/// public-key set as before the save.
pub proof fn lemma_save_load_roundtrip(v: Seq<KeyPairV>, s: Seq<char>)
    requires
        views_wf(v),
        save_post(v, s),
    ensures
        loaded_views(s) == Some(v),
{
    let strs = json_strings_parsed(s).unwrap();
    assert(all_entries_decode(strs)) by {
        assert forall|i: int| 0 <= i < strs.len() implies decoded_keypair(
            #[trigger] strs[i],
        ) is Some by {
            assert(decoded_keypair(strs[i]) == Some(v[i]));
        }
    }
    assert(decoded_views(strs) =~= v);
    lemma_build_views_id(v);
}

/// The in-memory keystore: a fixed number of deterministic synthetic
/// Ed25519 keys materialized at construction, with no persistence. For
/// deterministic test and development runs, never for production custody.
pub struct InMemKeystore {
    records: Vec<KeyRecord>,
}

/// The i-th synthetic key pair of an in-memory store created with `count`
/// keys: its secret is the i-th 32-byte block of the deterministic stream.
pub open spec fn synthetic_kp(count: int, i: int) -> KeyPairV {
    let secret = synthetic_stream(32 * count).subrange(32 * i, 32 * i + 32);
    KeyPairV {
        scheme: SignatureScheme::Ed25519,
        secret,
        public: public_of(SignatureScheme::Ed25519, secret),
    }
}

/// The key views an in-memory store is created with.
pub open spec fn in_mem_views(count: int) -> Seq<KeyPairV> {
    build_views(Seq::new(count as nat, |i: int| synthetic_kp(count, i)))
}

impl AccountKeystore for InMemKeystore {
    closed spec fn key_views(&self) -> Seq<KeyPairV> {
        recs_views(self.records@)
    }

    closed spec fn wf(&self) -> bool {
        recs_wf(self.records@)
    }

    open spec fn persist_path(&self) -> Option<Seq<char>> {
        None
    }

    fn sign(&self, address: &SuiAddress, msg: &[u8]) -> (r: Result<Signature, KeystoreError>) {
        sign_with(&self.records, address, msg)
    }

    fn add_key(&mut self, keypair: SuiKeyPair) -> (r: Result<(), KeystoreError>) {
        insert_record(&mut self.records, keypair);
        Ok(())
    }

    fn keys(&self) -> (r: Vec<PublicKey>) {
        keys_of(&self.records)
    }
}

impl InMemKeystore {
    /// Create an in-memory store holding `initial_key_number` deterministic
    /// Ed25519 key pairs: repeated runs with the same count yield the same
    /// addresses and keys.
    pub fn new(initial_key_number: usize) -> (r: InMemKeystore)
        requires
            initial_key_number * 32 <= usize::MAX,
        ensures
            r.wf(),
            r.key_views() == in_mem_views(initial_key_number as int),
    {
        let ghost n = initial_key_number as int;
        let total = initial_key_number * 32;
        let buf = synthetic_bytes(total);
        proof {
            assert(buf@ == synthetic_stream(32 * n));
        }
        let mut records: Vec<KeyRecord> = Vec::new();
        let mut i: usize = 0;
        while i < initial_key_number
            invariant
                n == initial_key_number as int,
                initial_key_number * 32 <= usize::MAX,
                i <= initial_key_number,
                buf@ == synthetic_stream(32 * n),
                buf@.len() == 32 * n,
                recs_wf(records@),
                recs_views(records@) == build_views(
                    Seq::new(i as nat, |k: int| synthetic_kp(n, k)),
                ),
            decreases initial_key_number - i,
        {
            let secret = copy_range(buf.as_slice(), 32 * i, 32 * i + 32);
            proof {
                assert(secret@ == synthetic_kp(n, i as int).secret);
            }
            let kp = SuiKeyPair::from_secret(SignatureScheme::Ed25519, secret);
            proof {
                assert(kp@ =~= synthetic_kp(n, i as int));
            }
            insert_record(&mut records, kp);
            proof {
                let pre = Seq::new(i as nat, |k: int| synthetic_kp(n, k));
                let cur = Seq::new((i + 1) as nat, |k: int| synthetic_kp(n, k));
                assert(cur.drop_last() =~= pre);
                assert(cur.last() == synthetic_kp(n, i as int));
                assert(recs_views(records@) == build_views(cur));
            }
            i += 1;
        }
        InMemKeystore { records }
    }
}

/// In-memory determinism: two in-memory stores created with the same count
/// hold the same keys, and so the same address set.
pub proof fn lemma_in_mem_deterministic(count: int, v1: Seq<KeyPairV>, v2: Seq<KeyPairV>)
    requires
        v1 == in_mem_views(count),
        v2 == in_mem_views(count),
    ensures
        v1 == v2,
{
}

} // verus!
