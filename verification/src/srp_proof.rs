//! The SRP-6a proof equations of the Pair-Setup Verify step, over the
//! 3072-bit group: the expected client proof
//! `M1 = H(H(N) xor H(g) || H(I) || s || A || B || K)` and the server
//! proof `M2 = H(A || M1 || K)`, both over SHA-512.

use vstd::prelude::*;

use crate::bytes::{bytes_eq, concat2, concat3, subrange_vec};
use crate::crypto::{sha512, sha512_of, spec_srp_group_bytes, srp_group_bytes};
use crate::error::TlvError;
use crate::labels::{pair_setup, spec_pair_setup};

verus! {

/// Bytewise xor of two equal-length byte sequences.
pub open spec fn xor_bytes(a: Seq<u8>, b: Seq<u8>) -> Seq<u8>
    recommends
        a.len() == b.len(),
{
    Seq::new(a.len(), |i: int| a[i] ^ b[i])
}

/// The big-endian bytes of the number a byte sequence denotes: leading
/// zero bytes are dropped, and the number zero is the single byte 0.
pub open spec fn strip_zeros(s: Seq<u8>) -> Seq<u8>
    decreases s.len(),
{
    if s.len() > 0 && s[0] == 0 {
        strip_zeros(s.skip(1))
    } else if s.len() == 0 {
        seq![0u8]
    } else {
        s
    }
}

proof fn lemma_strip_skip(s: Seq<u8>, j: int)
    requires
        0 <= j <= s.len(),
        forall|k: int| 0 <= k < j ==> s[k] == 0,
    ensures
        strip_zeros(s) == strip_zeros(s.skip(j)),
    decreases j,
{
    if j > 0 {
        lemma_strip_skip(s.skip(1), j - 1);
        assert(s.skip(1).skip(j - 1) =~= s.skip(j));
    } else {
        assert(s.skip(0) =~= s);
    }
}

/// Computes `strip_zeros(xor_bytes(a, b))` for equal-length inputs.
pub fn xor_strip(a: &Vec<u8>, b: &Vec<u8>) -> (r: Vec<u8>)
    requires
        a@.len() == b@.len(),
    ensures
        r@ == strip_zeros(xor_bytes(a@, b@)),
{
    let mut x: Vec<u8> = Vec::new();
    let mut i: usize = 0;
    while i < a.len()
        invariant
            0 <= i <= a@.len(),
            a@.len() == b@.len(),
            x@ =~= xor_bytes(a@, b@).take(i as int),
        decreases a@.len() - i,
    {
        x.push(a[i] ^ b[i]);
        i += 1;
    }
    assert(x@ =~= xor_bytes(a@, b@));
    let mut j: usize = 0;
    while j < x.len() && x[j] == 0
        invariant
            0 <= j <= x@.len(),
            forall|k: int| 0 <= k < j ==> x@[k] == 0,
        decreases x@.len() - j,
    {
        j += 1;
    }
    proof {
        lemma_strip_skip(x@, j as int);
    }
    if j == x.len() {
        assert(x@.skip(j as int).len() == 0);
        let r: Vec<u8> = vec![0u8];
        assert(r@ =~= seq![0u8]);
        r
    } else {
        assert(x@.skip(j as int)[0] == x@[j as int]);
        let n = x.len();
        let r = subrange_vec(&x, j, n);
        assert(r@ =~= x@.skip(j as int));
        r
    }
}

/// `H(N) xor H(g)` of the 3072-bit group, as big-endian number bytes.
pub open spec fn spec_group_hng() -> Seq<u8> {
    strip_zeros(
        xor_bytes(
            sha512_of(spec_srp_group_bytes(false)),
            sha512_of(spec_srp_group_bytes(true)),
        ),
    )
}

/// The expected client proof
/// `M1 = H(H(N) xor H(g) || H("Pair-Setup") || s || A || B || K)`.
pub open spec fn spec_m1(salt: Seq<u8>, a_pub: Seq<u8>, b_pub: Seq<u8>, key: Seq<u8>) -> Seq<
    u8,
> {
    sha512_of(spec_group_hng() + sha512_of(spec_pair_setup()) + salt + a_pub + b_pub + key)
}

/// The server proof `M2 = H(A || M1 || K)`.
pub open spec fn spec_m2(a_pub: Seq<u8>, m1: Seq<u8>, key: Seq<u8>) -> Seq<u8> {
    sha512_of(a_pub + m1 + key)
}

/// Checks the client's proof against `M1` and, exactly when it matches,
/// returns the server proof `M2`; a mismatch is an authentication error.
pub fn verify_client_proof(
    b_pub: &Vec<u8>,
    a_pub: &Vec<u8>,
    a_proof: &Vec<u8>,
    salt: &Vec<u8>,
    key: &Vec<u8>,
) -> (r: Result<Vec<u8>, TlvError>)
    ensures
        r is Ok <==> a_proof@ == spec_m1(salt@, a_pub@, b_pub@, key@),
        r matches Ok(p) ==> p@ == spec_m2(a_pub@, a_proof@, key@),
        r matches Err(e) ==> e == TlvError::Authentication,
{
    let n_bytes = srp_group_bytes(false);
    let g_bytes = srp_group_bytes(true);
    let hn = sha512(&n_bytes);
    let hg = sha512(&g_bytes);
    let hng = xor_strip(&hn, &hg);
    let label = pair_setup();
    let hi = sha512(&label);
    let head = concat3(&hng, &hi, salt);
    let mid = concat3(&head, a_pub, b_pub);
    let msg = concat2(&mid, key);
    let m1 = sha512(&msg);
    if bytes_eq(a_proof, &m1) {
        let m2_msg = concat3(a_pub, a_proof, key);
        Ok(sha512(&m2_msg))
    } else {
        Err(TlvError::Authentication)
    }
}

/// The server proof is a pure deterministic function of its inputs:
/// recomputing `M2` for the same `(A, M1, K)` yields the same proof.
pub proof fn lemma_server_proof_deterministic(
    a_pub1: Seq<u8>,
    m1a: Seq<u8>,
    key1: Seq<u8>,
    a_pub2: Seq<u8>,
    m1b: Seq<u8>,
    key2: Seq<u8>,
)
    requires
        a_pub1 == a_pub2,
        m1a == m1b,
        key1 == key2,
    ensures
        spec_m2(a_pub1, m1a, key1) == spec_m2(a_pub2, m1b, key2),
{
}

} // verus!
