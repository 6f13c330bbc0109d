//! The data model: schemes, key pairs, public keys, addresses, signatures,
//! derivation paths and the error taxonomy, together with the spec-level
//! functions that say what each derived value is.

use vstd::prelude::*;
use crate::primitives::sha256_of;
use crate::primitives::sha256_digest;

verus! {

/// Length in bytes of an address derived from a public key.
pub const ADDRESS_LENGTH: usize = 20;

/// The signature algorithm tag carried by every key pair.
#[derive(Clone, Copy, PartialEq, Eq, Structural, Debug)]
pub enum SignatureScheme {
    Ed25519,
    Secp256k1,
}

impl SignatureScheme {
    /// The flag byte that tags key material of this scheme.
    pub open spec fn flag_spec(self) -> u8 {
        match self {
            SignatureScheme::Ed25519 => 0u8,
            SignatureScheme::Secp256k1 => 1u8,
        }
    }

    pub fn flag(&self) -> (r: u8)
        ensures
            r == self.flag_spec(),
    {
        match self {
            SignatureScheme::Ed25519 => 0u8,
            SignatureScheme::Secp256k1 => 1u8,
        }
    }

    /// Recover a scheme from its flag byte; unknown flags are rejected.
    pub fn from_flag(flag: u8) -> (r: Option<SignatureScheme>)
        ensures
            r matches Some(s) ==> s.flag_spec() == flag,
            r is Some <==> (flag == 0u8 || flag == 1u8),
    {
        if flag == 0u8 {
            Some(SignatureScheme::Ed25519)
        } else if flag == 1u8 {
            Some(SignatureScheme::Secp256k1)
        } else {
            None
        }
    }
}

/// Mathematical content of a key pair: its scheme tag and raw key bytes.
#[verifier::ext_equal]
pub ghost struct KeyPairV {
    pub scheme: SignatureScheme,
    pub secret: Seq<u8>,
    pub public: Seq<u8>,
}

/// The public key bytes that belong to a secret: a one-way digest of the
/// scheme tag followed by the secret bytes.
pub open spec fn public_of(scheme: SignatureScheme, secret: Seq<u8>) -> Seq<u8> {
    sha256_of(seq![scheme.flag_spec()] + secret)
}

/// A well-formed key pair holds a 32-byte secret together with the public
/// key that belongs to it.
pub open spec fn kp_wf(kp: KeyPairV) -> bool {
    &&& kp.secret.len() == 32
    &&& kp.public == public_of(kp.scheme, kp.secret)
    &&& kp.public.len() == 32
}

/// The address that belongs to a public key: the leading bytes of a one-way
/// digest of the scheme tag followed by the public key bytes.
pub open spec fn address_of_public(scheme: SignatureScheme, public: Seq<u8>) -> Seq<u8> {
    sha256_of(seq![scheme.flag_spec()] + public).take(ADDRESS_LENGTH as int)
}

/// The address of a key pair is computed from its public half alone.
pub open spec fn kp_address(kp: KeyPairV) -> Seq<u8> {
    address_of_public(kp.scheme, kp.public)
}

/// The bytes of the signature a key pair produces over a message.
pub open spec fn signature_bytes_of(kp: KeyPairV, msg: Seq<u8>) -> Seq<u8> {
    sha256_of(kp.secret + msg)
}

/// Byte-wise equality of two slices.
pub fn bytes_eq(a: &[u8], b: &[u8]) -> (r: bool)
    ensures
        r == (a@ == b@),
{
    if a.len() != b.len() {
        return false;
    }
    let mut i: usize = 0;
    while i < a.len()
        invariant
            i <= a@.len(),
            a@.len() == b@.len(),
            forall|j: int| 0 <= j < i ==> a@[j] == b@[j],
        decreases a@.len() - i,
    {
        if a[i] != b[i] {
            return false;
        }
        i += 1;
    }
    proof {
        assert(a@ =~= b@);
    }
    true
}

/// Append all of `src` to `dst`.
pub fn append_bytes(dst: &mut Vec<u8>, src: &[u8])
    ensures
        final(dst)@ == old(dst)@ + src@,
{
    let mut i: usize = 0;
    while i < src.len()
        invariant
            i <= src@.len(),
            dst@ == old(dst)@ + src@.take(i as int),
        decreases src@.len() - i,
    {
        dst.push(src[i]);
        proof {
            assert(old(dst)@ + src@.take(i as int) + seq![src@[i as int]]
                =~= old(dst)@ + src@.take(i as int + 1));
        }
        i += 1;
    }
    proof {
        assert(old(dst)@ + src@.take(src@.len() as int) =~= old(dst)@ + src@);
    }
}

/// Copy `src[start..end]` into a fresh vector.
pub fn copy_range(src: &[u8], start: usize, end: usize) -> (r: Vec<u8>)
    requires
        start <= end <= src@.len(),
    ensures
        r@ == src@.subrange(start as int, end as int),
{
    let mut out: Vec<u8> = Vec::new();
    let mut i: usize = start;
    while i < end
        invariant
            start <= i <= end,
            end <= src@.len(),
            out@ == src@.subrange(start as int, i as int),
        decreases end - i,
    {
        out.push(src[i]);
        proof {
            assert(src@.subrange(start as int, i as int) + seq![src@[i as int]]
                =~= src@.subrange(start as int, i as int + 1));
        }
        i += 1;
    }
    out
}

/// An account address: a fixed-size identifier computed deterministically
/// from a public key, never chosen by a caller.
#[derive(Debug)]
pub struct SuiAddress {
    bytes: Vec<u8>,
}

impl View for SuiAddress {
    type V = Seq<u8>;

    closed spec fn view(&self) -> Seq<u8> {
        self.bytes@
    }
}

impl SuiAddress {
    pub open spec fn wf(&self) -> bool {
        self@.len() == ADDRESS_LENGTH
    }

    /// Wrap raw bytes as an address; any length but `ADDRESS_LENGTH` is
    /// rejected.
    pub fn from_bytes(bytes: Vec<u8>) -> (r: Option<SuiAddress>)
        ensures
            r matches Some(a) ==> a@ == bytes@ && a.wf(),
            r is Some <==> bytes@.len() == ADDRESS_LENGTH,
    {
        if bytes.len() == ADDRESS_LENGTH {
            Some(SuiAddress { bytes })
        } else {
            None
        }
    }

    /// The raw bytes of the address.
    pub fn to_bytes(&self) -> (r: Vec<u8>)
        ensures
            r@ == self@,
    {
        let r = copy_range(self.bytes.as_slice(), 0, self.bytes.len());
        proof {
            assert(self.bytes@.subrange(0, self.bytes@.len() as int) =~= self@);
        }
        r
    }
}

impl Clone for SuiAddress {
    fn clone(&self) -> (r: Self)
        ensures
            r@ == self@,
    {
        SuiAddress { bytes: self.to_bytes() }
    }
}

impl SuiAddress {
    /// Whether two addresses hold the same bytes.
    pub fn same_address(&self, other: &SuiAddress) -> (r: bool)
        ensures
            r == (self@ == other@),
    {
        bytes_eq(self.bytes.as_slice(), other.bytes.as_slice())
    }
}

/// The public half of a key pair, tagged with its scheme.
#[derive(Debug)]
pub struct PublicKey {
    scheme: SignatureScheme,
    bytes: Vec<u8>,
}

impl View for PublicKey {
    type V = (SignatureScheme, Seq<u8>);

    closed spec fn view(&self) -> (SignatureScheme, Seq<u8>) {
        (self.scheme, self.bytes@)
    }
}

impl PublicKey {
    pub fn scheme(&self) -> (r: SignatureScheme)
        ensures
            r == self@.0,
    {
        self.scheme
    }

    /// The raw public key bytes.
    pub fn key_bytes(&self) -> (r: &Vec<u8>)
        ensures
            r@ == self@.1,
    {
        &self.bytes
    }
}

impl Clone for PublicKey {
    fn clone(&self) -> (r: Self)
        ensures
            r@ == self@,
    {
        PublicKey {
            scheme: self.scheme,
            bytes: copy_full(self.bytes.as_slice()),
        }
    }
}

/// Copy a whole slice into a fresh vector.
pub fn copy_full(src: &[u8]) -> (r: Vec<u8>)
    ensures
        r@ == src@,
{
    let r = copy_range(src, 0, src.len());
    proof {
        assert(src@.subrange(0, src@.len() as int) =~= src@);
    }
    r
}

/// A scheme-tagged signature over a message.
#[derive(Debug)]
pub struct Signature {
    scheme: SignatureScheme,
    bytes: Vec<u8>,
}

impl View for Signature {
    type V = (SignatureScheme, Seq<u8>);

    closed spec fn view(&self) -> (SignatureScheme, Seq<u8>) {
        (self.scheme, self.bytes@)
    }
}

impl Signature {
    pub fn scheme(&self) -> (r: SignatureScheme)
        ensures
            r == self@.0,
    {
        self.scheme
    }

    /// The raw signature bytes.
    pub fn signature_bytes(&self) -> (r: &Vec<u8>)
        ensures
            r@ == self@.1,
    {
        &self.bytes
    }
}

/// A secret/public key bundle tagged with its signature scheme. The secret
/// bytes never leave the keystore: callers see public keys and signatures.
pub struct SuiKeyPair {
    scheme: SignatureScheme,
    secret: Vec<u8>,
    public: Vec<u8>,
}

impl View for SuiKeyPair {
    type V = KeyPairV;

    closed spec fn view(&self) -> KeyPairV {
        KeyPairV { scheme: self.scheme, secret: self.secret@, public: self.public@ }
    }
}

impl SuiKeyPair {
    pub open spec fn wf(&self) -> bool {
        kp_wf(self@)
    }

    pub fn scheme(&self) -> (r: SignatureScheme)
        ensures
            r == self@.scheme,
    {
        self.scheme
    }

    pub(crate) fn secret_bytes(&self) -> (r: &Vec<u8>)
        ensures
            r@ == self@.secret,
    {
        &self.secret
    }

    /// Build the key pair that belongs to a 32-byte secret.
    pub fn from_secret(scheme: SignatureScheme, secret: Vec<u8>) -> (r: SuiKeyPair)
        requires
            secret@.len() == 32,
        ensures
            r.wf(),
            r@.scheme == scheme,
            r@.secret == secret@,
    {
        let mut tagged: Vec<u8> = Vec::new();
        tagged.push(scheme.flag());
        append_bytes(&mut tagged, secret.as_slice());
        proof {
            assert(tagged@ =~= seq![scheme.flag_spec()] + secret@);
        }
        let public = sha256_digest(tagged.as_slice());
        SuiKeyPair { scheme, secret, public }
    }

    /// The public half of the key pair.
    pub fn public(&self) -> (r: PublicKey)
        ensures
            r@ == (self@.scheme, self@.public),
    {
        PublicKey { scheme: self.scheme, bytes: copy_full(self.public.as_slice()) }
    }

    /// Sign a message with this key pair.
    pub fn try_sign(&self, msg: &[u8]) -> (r: Signature)
        ensures
            r@ == (self@.scheme, signature_bytes_of(self@, msg@)),
    {
        let mut buf: Vec<u8> = Vec::new();
        append_bytes(&mut buf, self.secret.as_slice());
        append_bytes(&mut buf, msg);
        proof {
            assert(buf@ =~= self@.secret + msg@);
        }
        let bytes = sha256_digest(buf.as_slice());
        Signature { scheme: self.scheme, bytes }
    }
}

impl Clone for SuiKeyPair {
    fn clone(&self) -> (r: Self)
        ensures
            r@ == self@,
    {
        SuiKeyPair {
            scheme: self.scheme,
            secret: copy_full(self.secret.as_slice()),
            public: copy_full(self.public.as_slice()),
        }
    }
}

/// Compute the address that belongs to a public key.
pub fn address_from(pk: &PublicKey) -> (r: SuiAddress)
    ensures
        r@ == address_of_public(pk@.0, pk@.1),
        r.wf(),
{
    let mut tagged: Vec<u8> = Vec::new();
    tagged.push(pk.scheme().flag());
    append_bytes(&mut tagged, pk.key_bytes().as_slice());
    proof {
        assert(tagged@ =~= seq![pk@.0.flag_spec()] + pk@.1);
    }
    let digest = sha256_digest(tagged.as_slice());
    let bytes = copy_range(digest.as_slice(), 0, ADDRESS_LENGTH);
    proof {
        assert(digest@.subrange(0, ADDRESS_LENGTH as int)
            =~= address_of_public(pk@.0, pk@.1));
    }
    SuiAddress { bytes }
}

/// Computing an address twice for the same public key gives the same
/// address: the address is a function of the public key alone.
pub proof fn lemma_address_deterministic(
    scheme: SignatureScheme,
    public: Seq<u8>,
    a1: Seq<u8>,
    a2: Seq<u8>,
)
    requires
        a1 == address_of_public(scheme, public),
        a2 == address_of_public(scheme, public),
    ensures
        a1 == a2,
{
}

/// A hierarchical derivation path: a sequence of child indices selecting a
/// key below the seed.
#[derive(Debug)]
pub struct DerivationPath {
    components: Vec<u32>,
}

impl View for DerivationPath {
    type V = Seq<u32>;

    closed spec fn view(&self) -> Seq<u32> {
        self.components@
    }
}

impl DerivationPath {
    pub fn new(components: Vec<u32>) -> (r: DerivationPath)
        ensures
            r@ == components@,
    {
        DerivationPath { components }
    }

    pub fn components(&self) -> (r: &Vec<u32>)
        ensures
            r@ == self@,
    {
        &self.components
    }

    pub fn into_components(self) -> (r: Vec<u32>)
        ensures
            r@ == self@,
    {
        self.components
    }
}

/// The error taxonomy of the keystore.
#[derive(Debug)]
pub enum KeystoreError {
    /// `sign` was asked for an address with no stored key; carries the
    /// requested address.
    NotFound(SuiAddress),
    /// A mnemonic phrase failed wordlist or checksum validation.
    InvalidMnemonic,
    /// The derivation path was rejected for the requested scheme.
    DerivationFailed,
    /// A persisted keystore file failed to decode; carries the offending
    /// path.
    StorageCorrupt(String),
    /// Reading or writing the backing file failed; carries a description.
    StorageIo(String),
}

} // verus!
