//! A local key-custody core: it manages signing key material for a set of
//! addresses, derives keys deterministically from mnemonic phrases,
//! serializes them for persistence, and exposes a uniform signing interface
//! that never hands out raw secret bytes.

pub mod codec;
pub mod derivation;
pub mod facade;
pub mod primitives;
pub mod store;
pub mod types;
