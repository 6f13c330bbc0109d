//! Trusted boundary: the outside functions the keystore is built on.
//!
//! Every function here is `external_body`: Verus believes its contract and
//! never reads its body. Each result that is a pure function of the
//! arguments is given an uninterpreted name, so that the verified code can
//! speak of it exactly without restating the outside algorithm.

use vstd::prelude::*;

verus! {

/// What sha2's SHA-256 digest returns for a given byte sequence.
pub uninterp spec fn sha256_of(data: Seq<u8>) -> Seq<u8>;

/// Relies on sha2::Sha256::digest: the digest is a pure function of the
/// input bytes and is always 32 bytes long.
#[verifier::external_body]
pub(crate) fn sha256_digest(data: &[u8]) -> (r: Vec<u8>)
    ensures
        r@ == sha256_of(data@),
        r@.len() == 32,
{
    <sha2::Sha256 as sha2::Digest>::digest(data).to_vec()
}

/// What base64ct's strict Base64 decoder returns for a given string:
/// `Some` bytes exactly on canonical padded Base64 text.
pub uninterp spec fn b64_decoded(s: Seq<char>) -> Option<Seq<u8>>;

/// Relies on base64ct::Base64::encode_string (standard alphabet, padded):
/// decoding the returned string with base64ct::Base64::decode_vec yields
/// the input bytes again.
#[verifier::external_body]
pub(crate) fn base64_encode(b: &[u8]) -> (r: String)
    ensures
        b64_decoded(r@) == Some(b@),
{
    <base64ct::Base64 as base64ct::Encoding>::encode_string(b)
}

/// Relies on base64ct::Base64::decode_vec: strict Base64 decoding, a pure
/// function of the input string.
#[verifier::external_body]
pub(crate) fn base64_decode(s: &str) -> (r: Option<Vec<u8>>)
    ensures
        r is Some <==> b64_decoded(s@) is Some,
        r matches Some(v) ==> Some(v@) == b64_decoded(s@),
{
    <base64ct::Base64 as base64ct::Encoding>::decode_vec(s).ok()
}

/// What serde_json::from_str::<Vec<String>> returns for a given text:
/// `Some` strings exactly on a well-formed JSON array of strings.
pub uninterp spec fn json_strings_parsed(s: Seq<char>) -> Option<Seq<Seq<char>>>;

/// Relies on serde_json::from_str::<Vec<String>>: parsing is a pure
/// function of the input text.
#[verifier::external_body]
pub(crate) fn json_decode_strings(s: &str) -> (r: Option<Vec<String>>)
    ensures
        r is Some <==> json_strings_parsed(s@) is Some,
        r matches Some(v) ==> Some(v@.map(|i: int, x: String| x@)) == json_strings_parsed(s@),
{
    serde_json::from_str::<Vec<String>>(s).ok()
}

/// Relies on serde_json::to_string_pretty::<Vec<String>>: serializing a
/// vector of strings cannot fail (its documentation reserves failure for
/// maps with non-string keys and failing Serialize impls), and
/// serde_json::from_str parses back the text it printed.
#[verifier::external_body]
pub(crate) fn json_encode_strings(v: &Vec<String>) -> (r: String)
    ensures
        json_strings_parsed(r@) == Some(v@.map(|i: int, x: String| x@)),
{
    serde_json::to_string_pretty(v).expect("serializing strings cannot fail")
}

/// Whether bip39's Mnemonic::from_phrase (English wordlist) accepts a
/// phrase; acceptance is a pure function of the phrase text.
pub uninterp spec fn phrase_valid(s: Seq<char>) -> bool;

/// The 64-byte seed bip39 derives from an accepted phrase with an empty
/// passphrase; a pure function of the phrase text.
pub uninterp spec fn seed_of_phrase(s: Seq<char>) -> Seq<u8>;

/// Relies on bip39 (tiny-bip39): Mnemonic::from_phrase validates the phrase
/// against the English wordlist and its checksum, rejecting in particular
/// the empty phrase, and Seed::new derives a 64-byte seed from the accepted
/// phrase and the empty passphrase alone.
#[verifier::external_body]
pub(crate) fn mnemonic_to_seed(phrase: &str) -> (r: Option<Vec<u8>>)
    ensures
        r is Some <==> phrase_valid(phrase@),
        r matches Some(v) ==> v@ == seed_of_phrase(phrase@) && v@.len() == 64,
        phrase@.len() == 0 ==> r is None,
{
    match bip39::Mnemonic::from_phrase(phrase, bip39::Language::English) {
        Ok(m) => Some(bip39::Seed::new(&m, "").as_bytes().to_vec()),
        Err(_) => None,
    }
}

/// Whether position `i` starts a word: a non-space character at the start
/// of the text or right after a space.
pub open spec fn word_start_at(s: Seq<char>, i: int) -> bool {
    0 <= i < s.len() && s[i] != ' ' && (i == 0 || s[i - 1] == ' ')
}

/// How many words start within the first `n` characters.
pub open spec fn word_count_up_to(s: Seq<char>, n: int) -> int
    decreases n,
{
    if n <= 0 {
        0
    } else {
        word_count_up_to(s, n - 1) + if word_start_at(s, n - 1) {
            1int
        } else {
            0int
        }
    }
}

/// The number of space-separated words in a text.
pub open spec fn word_count(s: Seq<char>) -> int {
    word_count_up_to(s, s.len() as int)
}

/// Relies on bip39 (tiny-bip39): Mnemonic::new draws fresh entropy for a
/// 12-word English phrase — twelve wordlist words joined by single spaces —
/// and Mnemonic::from_phrase accepts every phrase so produced. The phrase
/// itself is random, so nothing more is promised.
#[verifier::external_body]
pub(crate) fn generate_mnemonic_phrase() -> (r: String)
    ensures
        phrase_valid(r@),
        word_count(r@) == 12,
{
    bip39::Mnemonic::new(bip39::MnemonicType::Words12, bip39::Language::English).into_phrase()
}

/// The bytes rand's StdRng yields from the fixed all-zero seed; for a fixed
/// rand version this is a pure function of the requested length.
pub uninterp spec fn synthetic_stream(len: int) -> Seq<u8>;

/// Relies on rand::rngs::StdRng: seeded with a constant it is a
/// deterministic generator, and fill_bytes fills the whole buffer.
#[verifier::external_body]
pub(crate) fn synthetic_bytes(len: usize) -> (r: Vec<u8>)
    ensures
        r@ == synthetic_stream(len as int),
        r@.len() == len,
{
    let mut rng = <rand::rngs::StdRng as rand::SeedableRng>::from_seed([0u8; 32]);
    let mut buf = vec![0u8; len];
    rand::RngCore::fill_bytes(&mut rng, &mut buf);
    buf
}

} // verus!
