//! Device-pairing handshakes of a home-automation accessory protocol:
//! Pair-Setup (SRP-based first-time trust establishment) and Pair-Verify
//! (ECDH-based session re-establishment), with verified message parsing,
//! state machines, key-derivation schedule and proof checks.

pub mod bytes;
pub mod crypto;
pub mod error;
pub mod kdf;
pub mod labels;
pub mod pair_setup;
pub mod pair_verify;
pub mod srp_proof;
pub mod store;
pub mod tlv;
