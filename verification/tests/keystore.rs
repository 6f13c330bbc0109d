use base64ct::Encoding;
use sui_keystore::derivation::derive_key_pair_from_path;
use sui_keystore::facade::KeystoreType;
use sui_keystore::store::AccountKeystore;
use sui_keystore::store::FileBasedKeystore;
use sui_keystore::types::address_from;
use sui_keystore::types::DerivationPath;
use sui_keystore::types::KeystoreError;
use sui_keystore::types::SignatureScheme;
use sui_keystore::types::SuiAddress;
use sui_keystore::types::SuiKeyPair;

// A BIP39-valid 12-word English phrase.
const PHRASE: &str =
    "abandon abandon abandon abandon abandon abandon abandon abandon abandon abandon abandon about";

fn sample_keypair(scheme: SignatureScheme, byte: u8) -> SuiKeyPair {
    SuiKeyPair::from_secret(scheme, vec![byte; 32])
}

#[test]
fn codec_roundtrip_preserves_scheme_and_bytes() {
    for scheme in [SignatureScheme::Ed25519, SignatureScheme::Secp256k1] {
        let kp = sample_keypair(scheme, 7);
        let encoded = kp.encode_base64();
        let decoded = SuiKeyPair::decode_base64(&encoded).expect("round trip decodes");
        assert_eq!(decoded.scheme(), scheme);
        assert_eq!(decoded.public().key_bytes(), kp.public().key_bytes());
        // re-encoding is injective in the scheme and secret bytes
        assert_eq!(decoded.encode_base64(), encoded);
    }
}

#[test]
fn codec_text_is_scheme_tagged_base64() {
    let kp = sample_keypair(SignatureScheme::Secp256k1, 3);
    let encoded = kp.encode_base64();
    let raw = base64ct::Base64::decode_vec(&encoded).expect("valid base64");
    assert_eq!(raw.len(), 33);
    assert_eq!(raw[0], 1); // Secp256k1 flag
    assert_eq!(&raw[1..], &[3u8; 32]);
}

#[test]
fn decode_rejects_malformed_text() {
    assert!(SuiKeyPair::decode_base64("%%%not base64%%%").is_none());
    // wrong length
    let short = base64ct::Base64::encode_string(&[0u8; 10]);
    assert!(SuiKeyPair::decode_base64(&short).is_none());
    // unknown scheme flag
    let bad_flag = base64ct::Base64::encode_string(&[9u8; 33]);
    assert!(SuiKeyPair::decode_base64(&bad_flag).is_none());
}

#[test]
fn address_is_deterministic_and_fixed_size() {
    let kp = sample_keypair(SignatureScheme::Ed25519, 42);
    let a1 = address_from(&kp.public());
    let a2 = address_from(&kp.public());
    assert_eq!(a1.to_bytes(), a2.to_bytes());
    assert_eq!(a1.to_bytes().len(), 20);
    // the address is a digest, not a prefix of the public key bytes
    assert_ne!(&a1.to_bytes()[..], &kp.public().key_bytes()[..20]);
}

#[test]
fn import_is_deterministic_and_idempotent() {
    let mut ks1 = KeystoreType::InMem(0).init(None).unwrap();
    let mut ks2 = KeystoreType::InMem(0).init(None).unwrap();
    let a1 = ks1
        .import_from_mnemonic(PHRASE, SignatureScheme::Ed25519, None)
        .unwrap();
    let a2 = ks2
        .import_from_mnemonic(PHRASE, SignatureScheme::Ed25519, None)
        .unwrap();
    assert_eq!(a1.to_bytes(), a2.to_bytes());
    // importing again overwrites with an equal key: still one entry
    let a3 = ks1
        .import_from_mnemonic(PHRASE, SignatureScheme::Ed25519, None)
        .unwrap();
    assert_eq!(a3.to_bytes(), a1.to_bytes());
    assert_eq!(ks1.addresses().len(), 1);
}

#[test]
fn save_then_load_yields_same_keys() {
    let selector = KeystoreType::File("keys.keystore".to_string());
    let mut ks = selector.init(None).unwrap();
    ks.import_from_mnemonic(PHRASE, SignatureScheme::Ed25519, None)
        .unwrap();
    ks.add_key(sample_keypair(SignatureScheme::Secp256k1, 5))
        .unwrap();
    let before = ks.keys();
    let contents = ks.save_contents().expect("file-backed store serializes");
    let reloaded = selector.init(Some(&contents)).unwrap();
    let after = reloaded.keys();
    assert_eq!(before.len(), after.len());
    for (b, a) in before.iter().zip(after.iter()) {
        assert_eq!(b.scheme(), a.scheme());
        assert_eq!(b.key_bytes(), a.key_bytes());
    }
}

#[test]
fn sign_unknown_address_fails_with_not_found() {
    let mut ks = KeystoreType::InMem(0).init(None).unwrap();
    ks.import_from_mnemonic(PHRASE, SignatureScheme::Ed25519, None)
        .unwrap();
    let unknown = SuiAddress::from_bytes(vec![0xAB; 20]).unwrap();
    match ks.sign(&unknown, b"msg") {
        Err(KeystoreError::NotFound(a)) => assert_eq!(a.to_bytes(), vec![0xAB; 20]),
        other => panic!("expected NotFound, got {:?}", other.map(|s| s.scheme())),
    }
}

#[test]
fn sign_with_stored_key_is_deterministic() {
    let mut ks = KeystoreType::InMem(0).init(None).unwrap();
    let addr = ks
        .import_from_mnemonic(PHRASE, SignatureScheme::Ed25519, None)
        .unwrap();
    let s1 = ks.sign(&addr, b"hello").unwrap();
    let s2 = ks.sign(&addr, b"hello").unwrap();
    assert_eq!(s1.scheme(), SignatureScheme::Ed25519);
    assert_eq!(s1.signature_bytes(), s2.signature_bytes());
    let other = ks.sign(&addr, b"other message").unwrap();
    assert_ne!(s1.signature_bytes(), other.signature_bytes());
}

#[test]
fn in_memory_stores_are_deterministic() {
    let ks1 = KeystoreType::InMem(3).init(None).unwrap();
    let ks2 = KeystoreType::InMem(3).init(None).unwrap();
    let a1: Vec<Vec<u8>> = ks1.addresses().iter().map(|a| a.to_bytes()).collect();
    let a2: Vec<Vec<u8>> = ks2.addresses().iter().map(|a| a.to_bytes()).collect();
    assert_eq!(a1.len(), 3);
    assert_eq!(a1, a2);
    // three distinct entries
    assert_ne!(a1[0], a1[1]);
    assert_ne!(a1[0], a1[2]);
    assert_ne!(a1[1], a1[2]);
}

#[test]
fn generate_new_key_stores_and_signs() {
    let mut ks = KeystoreType::File("fresh.keystore".to_string())
        .init(None)
        .unwrap();
    let (addr, phrase, scheme) = ks.generate_new_key(SignatureScheme::Ed25519, None).unwrap();
    assert_eq!(scheme, SignatureScheme::Ed25519);
    assert_eq!(phrase.split_whitespace().count(), 12);
    let addrs = ks.addresses();
    assert!(addrs.iter().any(|a| a.to_bytes() == addr.to_bytes()));
    assert!(ks.sign(&addr, b"hello").is_ok());
    // the returned phrase is the backup of the key: importing it elsewhere
    // recreates the same address
    let mut other = KeystoreType::InMem(0).init(None).unwrap();
    let again = other
        .import_from_mnemonic(&phrase, SignatureScheme::Ed25519, None)
        .unwrap();
    assert_eq!(again.to_bytes(), addr.to_bytes());
}

#[test]
fn reload_after_generate_returns_same_public_key() {
    let selector = KeystoreType::File("reload.keystore".to_string());
    let mut ks = selector.init(None).unwrap();
    ks.generate_new_key(SignatureScheme::Ed25519, None).unwrap();
    let before = ks.keys();
    let contents = ks.save_contents().unwrap();
    let reloaded = selector.init(Some(&contents)).unwrap();
    let after = reloaded.keys();
    assert_eq!(after.len(), 1);
    assert_eq!(before[0].key_bytes(), after[0].key_bytes());
    assert_eq!(before[0].scheme(), after[0].scheme());
}

#[test]
fn import_empty_phrase_fails_and_stores_nothing() {
    let mut ks = KeystoreType::File("empty.keystore".to_string())
        .init(None)
        .unwrap();
    match ks.import_from_mnemonic("", SignatureScheme::Ed25519, None) {
        Err(KeystoreError::InvalidMnemonic) => {}
        _ => panic!("expected InvalidMnemonic"),
    }
    assert_eq!(ks.keys().len(), 0);
}

#[test]
fn import_garbled_phrase_fails() {
    let mut ks = KeystoreType::InMem(0).init(None).unwrap();
    let r = ks.import_from_mnemonic(
        "definitely not a wordlist phrase at all",
        SignatureScheme::Ed25519,
        None,
    );
    assert!(matches!(r, Err(KeystoreError::InvalidMnemonic)));
    assert_eq!(ks.keys().len(), 0);
}

#[test]
fn unhardened_path_is_rejected_for_ed25519() {
    let mut ks = KeystoreType::InMem(0).init(None).unwrap();
    let path = DerivationPath::new(vec![44, 784]);
    let r = ks.import_from_mnemonic(PHRASE, SignatureScheme::Ed25519, Some(path));
    assert!(matches!(r, Err(KeystoreError::DerivationFailed)));
    assert_eq!(ks.keys().len(), 0);
    // the same components are acceptable for Secp256k1
    let path = DerivationPath::new(vec![44, 784]);
    assert!(ks
        .import_from_mnemonic(PHRASE, SignatureScheme::Secp256k1, Some(path))
        .is_ok());
}

#[test]
fn corrupt_file_is_refused_naming_the_path() {
    let selector = KeystoreType::File("broken.keystore".to_string());
    match selector.init(Some("this is not json")) {
        Err(KeystoreError::StorageCorrupt(p)) => assert_eq!(p, "broken.keystore"),
        _ => panic!("expected StorageCorrupt"),
    }
    match selector.init(Some("[\"not a keypair entry\"]")) {
        Err(KeystoreError::StorageCorrupt(p)) => assert_eq!(p, "broken.keystore"),
        _ => panic!("expected StorageCorrupt"),
    }
}

#[test]
fn empty_store_serializes_and_reloads_empty() {
    let selector = KeystoreType::File("blank.keystore".to_string());
    let ks = selector.init(None).unwrap();
    let contents = ks.save_contents().unwrap();
    let reloaded = selector.init(Some(&contents)).unwrap();
    assert_eq!(reloaded.keys().len(), 0);
}

#[test]
fn derivation_depends_on_path_seed_and_scheme() {
    let seed = [5u8; 64];
    let (a1, _) = derive_key_pair_from_path(&seed, None, SignatureScheme::Ed25519).unwrap();
    let (a2, _) = derive_key_pair_from_path(&seed, None, SignatureScheme::Ed25519).unwrap();
    assert_eq!(a1.to_bytes(), a2.to_bytes());
    let custom = DerivationPath::new(vec![0x8000002C, 0x80000310, 0x80000001]);
    let (a3, _) =
        derive_key_pair_from_path(&seed, Some(custom), SignatureScheme::Ed25519).unwrap();
    assert_ne!(a3.to_bytes(), a1.to_bytes());
    let (a4, _) = derive_key_pair_from_path(&seed, None, SignatureScheme::Secp256k1).unwrap();
    assert_ne!(a4.to_bytes(), a1.to_bytes());
    let other_seed = [6u8; 64];
    let (a5, _) = derive_key_pair_from_path(&other_seed, None, SignatureScheme::Ed25519).unwrap();
    assert_ne!(a5.to_bytes(), a1.to_bytes());
}

#[test]
fn file_store_without_path_saves_nothing() {
    let mut fks = FileBasedKeystore::default();
    assert!(fks.save().is_none());
    fks.add_key(sample_keypair(SignatureScheme::Ed25519, 9))
        .unwrap();
    assert!(fks.save().is_none());
    fks.set_path("later.keystore");
    let text = fks.save().expect("path configured now");
    let strings: Vec<String> = serde_json::from_str(&text).expect("a JSON array of strings");
    assert_eq!(strings.len(), 1);
    assert_eq!(fks.key_pairs().len(), 1);
    assert_eq!(fks.keys().len(), 1);
}

#[test]
fn persisted_form_is_json_array_of_encoded_keypairs() {
    let mut fks = FileBasedKeystore::load_or_create("form.keystore", None).unwrap();
    let kp = sample_keypair(SignatureScheme::Ed25519, 11);
    let encoded = kp.encode_base64();
    fks.add_key(kp).unwrap();
    let text = fks.save().unwrap();
    let strings: Vec<String> = serde_json::from_str(&text).unwrap();
    assert_eq!(strings, vec![encoded]);
}

#[test]
fn address_from_bytes_checks_length() {
    assert!(SuiAddress::from_bytes(vec![1; 20]).is_some());
    assert!(SuiAddress::from_bytes(vec![1; 19]).is_none());
    assert!(SuiAddress::from_bytes(vec![1; 32]).is_none());
}

#[test]
fn scheme_flags_roundtrip() {
    assert_eq!(
        SignatureScheme::from_flag(SignatureScheme::Ed25519.flag()),
        Some(SignatureScheme::Ed25519)
    );
    assert_eq!(
        SignatureScheme::from_flag(SignatureScheme::Secp256k1.flag()),
        Some(SignatureScheme::Secp256k1)
    );
    assert_eq!(SignatureScheme::from_flag(7), None);
}

#[test]
fn save_contents_follows_persistence_configuration() {
    // an in-memory backend never persists, before or after a mutation
    let mut mem = KeystoreType::InMem(2).init(None).unwrap();
    assert!(mem.save_contents().is_none());
    mem.add_key(sample_keypair(SignatureScheme::Ed25519, 13))
        .unwrap();
    assert!(mem.save_contents().is_none());
    // a file-backed store with a configured path always yields the text,
    // and mutations keep the configuration
    let mut file = KeystoreType::File("cfg.keystore".to_string())
        .init(None)
        .unwrap();
    assert!(file.save_contents().is_some());
    file.add_key(sample_keypair(SignatureScheme::Ed25519, 14))
        .unwrap();
    let text = file.save_contents().expect("path survives add_key");
    let strings: Vec<String> = serde_json::from_str(&text).unwrap();
    assert_eq!(strings.len(), 1);
}
