//! The textual form of a key pair: a scheme flag byte followed by the
//! 32 secret bytes, as strict Base64. Decoding recovers the scheme and the
//! secret and recomputes the public half, so a decoded key pair is always
//! well formed.

use vstd::prelude::*;
use crate::primitives::b64_decoded;
use crate::primitives::base64_encode;
use crate::primitives::base64_decode;
use crate::types::KeyPairV;
use crate::types::SignatureScheme;
use crate::types::SuiKeyPair;
use crate::types::append_bytes;
use crate::types::copy_range;
use crate::types::kp_wf;
use crate::types::public_of;

verus! {

/// The tagged byte form of a key pair: its scheme flag followed by the
/// secret bytes.
pub open spec fn tagged_bytes(kp: KeyPairV) -> Seq<u8> {
    seq![kp.scheme.flag_spec()] + kp.secret
}

/// What a persisted key pair string means: strict Base64 text holding a
/// known flag byte followed by a 32-byte secret; the public half belongs to
/// the secret.
pub open spec fn decoded_keypair(s: Seq<char>) -> Option<KeyPairV> {
    match b64_decoded(s) {
        None => None,
        Some(bytes) => {
            if bytes.len() == 33 && (bytes[0] == 0u8 || bytes[0] == 1u8) {
                let scheme = if bytes[0] == 0u8 {
                    SignatureScheme::Ed25519
                } else {
                    SignatureScheme::Secp256k1
                };
                let secret = bytes.skip(1);
                Some(KeyPairV { scheme, secret, public: public_of(scheme, secret) })
            } else {
                None
            }
        },
    }
}

/// Round trip: a Base64 text that decodes to the tagged bytes of a
/// well-formed key pair decodes, as a key pair, to that key pair itself —
/// scheme and key bytes both preserved.
pub proof fn lemma_codec_roundtrip(kp: KeyPairV, s: Seq<char>)
    requires
        kp_wf(kp),
        b64_decoded(s) == Some(tagged_bytes(kp)),
    ensures
        decoded_keypair(s) == Some(kp),
{
    let bytes = tagged_bytes(kp);
    assert(bytes.len() == 33);
    assert(bytes[0] == kp.scheme.flag_spec());
    assert(bytes.skip(1) =~= kp.secret);
    let d = decoded_keypair(s);
    assert(d is Some);
    assert(d.unwrap() =~= kp);
}

impl SuiKeyPair {
    /// Encode the key pair as scheme-tagged Base64 text.
    pub fn encode_base64(&self) -> (r: String)
        requires
            self.wf(),
        ensures
            decoded_keypair(r@) == Some(self@),
    {
        let mut buf: Vec<u8> = Vec::new();
        buf.push(self.scheme().flag());
        append_bytes(&mut buf, self.secret_bytes().as_slice());
        proof {
            assert(buf@ =~= tagged_bytes(self@));
        }
        let r = base64_encode(buf.as_slice());
        proof {
            lemma_codec_roundtrip(self@, r@);
        }
        r
    }

    /// Decode a key pair from its scheme-tagged Base64 text form.
    pub fn decode_base64(s: &str) -> (r: Option<SuiKeyPair>)
        ensures
            r is Some <==> decoded_keypair(s@) is Some,
            r matches Some(kp) ==> Some(kp@) == decoded_keypair(s@) && kp.wf(),
    {
        match base64_decode(s) {
            None => None,
            Some(bytes) => {
                if bytes.len() != 33 {
                    return None;
                }
                match SignatureScheme::from_flag(bytes[0]) {
                    None => None,
                    Some(scheme) => {
                        let secret = copy_range(bytes.as_slice(), 1, 33);
                        let kp = SuiKeyPair::from_secret(scheme, secret);
                        proof {
                            assert(bytes@.skip(1) =~= bytes@.subrange(1, 33));
                            assert(kp@ =~= decoded_keypair(s@).unwrap());
                        }
                        Some(kp)
                    },
                }
            },
        }
    }
}

} // verus!
