//! The shared key-derivation helper: one HKDF-SHA512 extract-and-expand
//! step with a literal salt label and a literal info label, truncated to
//! the requested length. Every key of both handshakes is one pinned
//! `(salt label, info label, length)` triple through this helper.

use vstd::prelude::*;

use crate::crypto::{hkdf_sha512, hkdf_sha512_of};

verus! {

/// The first `n` bytes of the HKDF-SHA512 output block for the given
/// secret, salt label and info label.
pub open spec fn spec_derive(secret: Seq<u8>, salt: Seq<u8>, info: Seq<u8>, n: nat) -> Seq<u8>
    recommends
        n <= 64,
{
    hkdf_sha512_of(secret, salt, info).take(n as int)
}

/// Derives `out_len` bytes of key material from a secret and the two
/// literal labels.
pub fn derive_key(secret: &Vec<u8>, salt: &Vec<u8>, info: &Vec<u8>, out_len: usize) -> (r: Vec<
    u8,
>)
    requires
        out_len <= 64,
    ensures
        r@ == spec_derive(secret@, salt@, info@, out_len as nat),
        r@.len() == out_len,
{
    let mut okm = hkdf_sha512(secret, salt, info);
    okm.truncate(out_len);
    assert(okm@ =~= hkdf_sha512_of(secret@, salt@, info@).take(out_len as int));
    okm
}

/// An arbitrary, unknown-content byte payload.
#[derive(Debug, Clone, PartialEq)]
pub struct PayloadU8(pub Vec<u8>);

impl PayloadU8 {
    /// Wraps the given bytes.
    pub fn new(bytes: Vec<u8>) -> (r: PayloadU8)
        ensures
            r.0@ == bytes@,
    {
        PayloadU8(bytes)
    }

    /// An empty payload.
    pub fn empty() -> (r: PayloadU8)
        ensures
            r.0@.len() == 0,
    {
        PayloadU8(Vec::new())
    }

    /// Unwraps the payload bytes.
    pub fn into_inner(self) -> (r: Vec<u8>)
        ensures
            r@ == self.0@,
    {
        self.0
    }
}

} // verus!
