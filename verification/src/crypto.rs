//! Trusted boundary to the cryptographic crates: SHA-512, the SRP-6a
//! server primitives over the 3072-bit RFC 5054 group, HKDF-SHA512,
//! the ChaCha20-Poly1305 envelope, Ed25519, Curve25519, random bytes and
//! identifier parsing. Each wrapper's contract states what the outside
//! source shows; results that depend on the arguments alone are named.

use vstd::prelude::*;

use rand::RngCore;
use sha2::{Digest, Sha512};
use srp::client::SrpClient;
use srp::groups::G_3072;
use srp::server::{SrpServer, UserRecord};

verus! {

/// The SHA-512 digest of a byte sequence.
pub uninterp spec fn sha512_of(data: Seq<u8>) -> Seq<u8>;

/// The SRP private key `x = H(s | H(I | ":" | P))` over SHA-512.
pub uninterp spec fn srp_x_of(username: Seq<u8>, password: Seq<u8>, salt: Seq<u8>) -> Seq<u8>;

/// The SRP password verifier `v = g^x mod N` over the 3072-bit group.
pub uninterp spec fn srp_verifier_of(private_key: Seq<u8>) -> Seq<u8>;

/// Whether the SRP server refuses a client public value (`A mod N == 0`).
pub uninterp spec fn srp_malicious_a(a_pub: Seq<u8>) -> bool;

/// The SRP server public value `B = kv + g^b mod N`.
pub uninterp spec fn srp_b_pub_of(verifier: Seq<u8>, b: Seq<u8>) -> Seq<u8>;

/// The SRP shared secret `K = H((A * v^u) ^ b mod N)` over SHA-512.
pub uninterp spec fn srp_key_of(verifier: Seq<u8>, b: Seq<u8>, a_pub: Seq<u8>) -> Seq<u8>;

/// The HKDF-SHA512 output keying material of one full block (64 bytes).
pub uninterp spec fn hkdf_sha512_of(secret: Seq<u8>, salt: Seq<u8>, info: Seq<u8>) -> Seq<u8>;

/// Ciphertext followed by the 16-byte Poly1305 tag of a ChaCha20-Poly1305
/// encryption with empty associated data.
pub uninterp spec fn aead_seal_of(key: Seq<u8>, nonce: Seq<u8>, plaintext: Seq<u8>) -> Seq<u8>;

/// The Ed25519 signature of a message under a 64-byte secret key.
pub uninterp spec fn ed25519_sig_of(message: Seq<u8>, secret_key: Seq<u8>) -> Seq<u8>;

/// Whether an Ed25519 signature verifies for a message and public key.
pub uninterp spec fn ed25519_verifies(message: Seq<u8>, public_key: Seq<u8>, signature: Seq<u8>) -> bool;

/// The Curve25519 base-point multiple of a 32-byte scalar.
pub uninterp spec fn curve25519_base_of(scalar: Seq<u8>) -> Seq<u8>;

/// The Curve25519 Diffie-Hellman product of a scalar and a public value.
pub uninterp spec fn curve25519_of(scalar: Seq<u8>, public: Seq<u8>) -> Seq<u8>;

/// The 16 identifier bytes parsed from a textual UUID, when it is well
/// formed; `None` otherwise.
pub uninterp spec fn uuid_parse_of(text: Seq<u8>) -> Option<Seq<u8>>;

/// Relies on rand's `thread_rng` and `RngCore::fill_bytes`: fills a buffer
/// from a cryptographically secure generator. Nothing can be promised of
/// the values, only of the length.
#[verifier::external_body]
pub fn random_bytes(n: usize) -> (r: Vec<u8>)
    ensures
        r@.len() == n,
{
    let mut r = vec![0u8; n];
    rand::thread_rng().fill_bytes(&mut r);
    r
}

/// Relies on sha2's `Sha512` (`input`/`result`): a 64-byte digest that is a
/// function of the input bytes alone.
#[verifier::external_body]
pub fn sha512(data: &Vec<u8>) -> (r: Vec<u8>)
    ensures
        r@ == sha512_of(data@),
        r@.len() == 64,
{
    let mut d = Sha512::new();
    d.input(data.as_slice());
    d.result().to_vec()
}

/// Relies on srp's `srp_private_key::<Sha512>`: computes
/// `H(salt | H(username | ":" | password))`, a 64-byte value that is a
/// function of its three arguments alone.
#[verifier::external_body]
pub fn srp_private_key_sha512(username: &Vec<u8>, password: &Vec<u8>, salt: &Vec<u8>) -> (r: Vec<
    u8,
>)
    ensures
        r@ == srp_x_of(username@, password@, salt@),
        r@.len() == 64,
{
    srp::client::srp_private_key::<Sha512>(username, password, salt).to_vec()
}

/// Relies on srp's `SrpClient::get_password_verifier` over the `G_3072`
/// group: returns `g^x mod N`, a function of the private key alone (the
/// client's ephemeral value does not enter the computation).
#[verifier::external_body]
pub fn srp_password_verifier(private_key: &Vec<u8>) -> (r: Vec<u8>)
    ensures
        r@ == srp_verifier_of(private_key@),
        r@.len() <= 384,
{
    let client = SrpClient::<Sha512>::new(private_key, &G_3072);
    client.get_password_verifier(private_key)
}

/// Relies on srp's `SrpServer::<Sha512>::new` and `get_b_pub` over `G_3072`:
/// `new` fails exactly when the supplied client public value is divisible
/// by the group modulus N (so any nonzero value shorter than the 384-byte
/// modulus is accepted), and `B = kv + g^b mod N` is a function of the
/// verifier and the server ephemeral alone. Username and salt do not enter
/// the computation of `B`.
#[verifier::external_body]
pub fn srp_server_b_pub(
    username: &Vec<u8>,
    salt: &Vec<u8>,
    verifier: &Vec<u8>,
    a_pub: &Vec<u8>,
    b: &Vec<u8>,
) -> (r: Option<Vec<u8>>)
    ensures
        r is Some <==> !srp_malicious_a(a_pub@),
        (a_pub@.len() < 384 && (exists|i: int| 0 <= i < a_pub@.len() && a_pub@[i] != 0)) ==> r
            is Some,
        r matches Some(v) ==> v@ == srp_b_pub_of(verifier@, b@) && v@.len() <= 384,
{
    let user = UserRecord { username: username.as_slice(), salt: salt.as_slice(), verifier: verifier.as_slice() };
    match SrpServer::<Sha512>::new(&user, a_pub, b, &G_3072) {
        Ok(server) => Some(server.get_b_pub()),
        Err(_) => None,
    }
}

/// Relies on srp's `SrpServer::<Sha512>::new` and `get_key` over `G_3072`:
/// `new` fails exactly when the client public value is divisible by the
/// group modulus, and the shared secret `K = H((A * v^u) ^ b mod N)` is a
/// 64-byte function of the verifier, the server ephemeral and the client
/// public value alone.
#[verifier::external_body]
pub fn srp_server_key(
    username: &Vec<u8>,
    salt: &Vec<u8>,
    verifier: &Vec<u8>,
    a_pub: &Vec<u8>,
    b: &Vec<u8>,
) -> (r: Option<Vec<u8>>)
    ensures
        r is Some <==> !srp_malicious_a(a_pub@),
        r matches Some(k) ==> k@ == srp_key_of(verifier@, b@, a_pub@) && k@.len() == 64,
{
    let user = UserRecord { username: username.as_slice(), salt: salt.as_slice(), verifier: verifier.as_slice() };
    match SrpServer::<Sha512>::new(&user, a_pub, b, &G_3072) {
        Ok(server) => Some(server.get_key().to_vec()),
        Err(_) => None,
    }
}

/// Relies on num's `BigUint::to_bytes_be` applied to srp's `G_3072` group
/// constants: the big-endian bytes of the generator when `generator` is
/// true (the single byte 5), else of the 384-byte modulus N.
#[verifier::external_body]
pub fn srp_group_bytes(generator: bool) -> (r: Vec<u8>)
    ensures
        r@ == spec_srp_group_bytes(generator),
        !generator ==> r@.len() == 384,
        generator ==> r@.len() == 1,
{
    if generator {
        G_3072.g.to_bytes_be()
    } else {
        G_3072.n.to_bytes_be()
    }
}

/// The big-endian bytes of the `G_3072` generator or modulus.
pub uninterp spec fn spec_srp_group_bytes(generator: bool) -> Seq<u8>;

/// Relies on ring's `hkdf::Salt::new(HKDF_SHA512)`, `extract`, `expand` and
/// `Okm::fill`: one full 64-byte HKDF-SHA512 extract-and-expand block, a
/// function of secret, salt and info alone. `expand` cannot fail for a
/// 64-byte output and `fill` cannot fail on a 64-byte buffer.
#[verifier::external_body]
pub fn hkdf_sha512(secret: &Vec<u8>, salt: &Vec<u8>, info: &Vec<u8>) -> (r: Vec<u8>)
    ensures
        r@ == hkdf_sha512_of(secret@, salt@, info@),
        r@.len() == 64,
{
    let prk = ring::hkdf::Salt::new(ring::hkdf::HKDF_SHA512, salt).extract(secret);
    let info_parts: [&[u8]; 1] = [info.as_slice()];
    let okm = prk.expand(&info_parts, ring::hkdf::HKDF_SHA512).unwrap();
    let mut out = vec![0u8; 64];
    okm.fill(&mut out).unwrap();
    out
}

/// Relies on chacha20-poly1305-aead's `encrypt` with empty associated data
/// into a `Vec` sink: writing to a `Vec` cannot fail and the input is held
/// far below the cipher's counter limit, so encryption always succeeds;
/// ciphertext and tag are functions of key, nonce and plaintext alone.
#[verifier::external_body]
pub fn aead_seal(key: &Vec<u8>, nonce: &Vec<u8>, plaintext: &Vec<u8>) -> (r: Vec<u8>)
    requires
        key@.len() == 32,
        nonce@.len() == 12,
        plaintext@.len() < 0x1000000,
    ensures
        r@ == aead_seal_of(key@, nonce@, plaintext@),
        r@.len() == plaintext@.len() + 16,
{
    let mut ciphertext: Vec<u8> = Vec::with_capacity(plaintext.len() + 16);
    let tag = chacha20_poly1305_aead::encrypt(key, nonce, &[], plaintext, &mut ciphertext)
        .unwrap();
    ciphertext.extend_from_slice(&tag);
    ciphertext
}

/// Relies on chacha20-poly1305-aead's `decrypt` with empty associated data:
/// it recomputes the Poly1305 tag over the ciphertext and compares before
/// writing any output, returns the plaintext whose encryption under the
/// same key and nonce produced the ciphertext and tag, and fails on any
/// pair that no encryption produced. Encryption is a deterministic
/// keystream xor, so a ciphertext of a given length has exactly one
/// plaintext that seals to it: the one decryption returns.
#[verifier::external_body]
pub fn aead_open(key: &Vec<u8>, nonce: &Vec<u8>, ciphertext: &Vec<u8>, tag: &Vec<u8>) -> (r:
    Option<Vec<u8>>)
    requires
        key@.len() == 32,
        nonce@.len() == 12,
        tag@.len() == 16,
        ciphertext@.len() < 0x1000000,
    ensures
        r matches Some(p) ==> p@.len() == ciphertext@.len() && ciphertext@ + tag@
            == aead_seal_of(key@, nonce@, p@),
        (exists|p: Seq<u8>|
            p.len() == ciphertext@.len() && ciphertext@ + tag@ == aead_seal_of(key@, nonce@, p))
            ==> r is Some,
        r matches Some(p) ==> forall|q: Seq<u8>|
            (q.len() == ciphertext@.len() && ciphertext@ + tag@ == #[trigger] aead_seal_of(
                key@,
                nonce@,
                q,
            )) ==> q == p@,
{
    let mut plaintext: Vec<u8> = Vec::with_capacity(ciphertext.len());
    match chacha20_poly1305_aead::decrypt(key, nonce, &[], ciphertext, tag, &mut plaintext) {
        Ok(()) => Some(plaintext),
        Err(_) => None,
    }
}

/// Relies on rust-crypto's `ed25519::signature`: a 64-byte signature that
/// is a function of the message and the 64-byte secret key alone (the
/// scheme is deterministic).
#[verifier::external_body]
pub fn ed25519_sign(message: &Vec<u8>, secret_key: &Vec<u8>) -> (r: Vec<u8>)
    requires
        secret_key@.len() == 64,
    ensures
        r@ == ed25519_sig_of(message@, secret_key@),
        r@.len() == 64,
{
    crypto::ed25519::signature(message, secret_key).to_vec()
}

/// Relies on rust-crypto's `ed25519::verify`: a boolean that is a function
/// of message, 32-byte public key and 64-byte signature alone.
#[verifier::external_body]
pub fn ed25519_check(message: &Vec<u8>, public_key: &Vec<u8>, signature: &Vec<u8>) -> (r: bool)
    requires
        public_key@.len() == 32,
        signature@.len() == 64,
    ensures
        r == ed25519_verifies(message@, public_key@, signature@),
{
    crypto::ed25519::verify(message, public_key, signature)
}

/// Relies on rust-crypto's `curve25519_base`: the X25519 public value of a
/// 32-byte scalar, a function of the scalar alone.
#[verifier::external_body]
pub fn curve25519_base_point(scalar: &Vec<u8>) -> (r: Vec<u8>)
    requires
        scalar@.len() == 32,
    ensures
        r@ == curve25519_base_of(scalar@),
        r@.len() == 32,
{
    crypto::curve25519::curve25519_base(scalar).to_vec()
}

/// Relies on rust-crypto's `curve25519`: the X25519 product of a 32-byte
/// scalar and a 32-byte public value, a function of the two alone.
#[verifier::external_body]
pub fn curve25519_dh(scalar: &Vec<u8>, public: &Vec<u8>) -> (r: Vec<u8>)
    requires
        scalar@.len() == 32,
        public@.len() == 32,
    ensures
        r@ == curve25519_of(scalar@, public@),
        r@.len() == 32,
{
    crypto::curve25519::curve25519(scalar, public).to_vec()
}

/// Relies on uuid's `Uuid::try_parse_ascii` and `into_bytes`: parsing is a
/// function of the input text alone and yields the 16 identifier bytes on
/// the well-formed textual forms, an error on all others.
#[verifier::external_body]
pub fn uuid_parse(text: &Vec<u8>) -> (r: Option<Vec<u8>>)
    ensures
        r matches Some(b) ==> uuid_parse_of(text@) == Some(b@) && b@.len() == 16,
        r is None ==> uuid_parse_of(text@) is None,
{
    match uuid::Uuid::try_parse_ascii(text) {
        Ok(u) => Some(u.into_bytes().to_vec()),
        Err(_) => None,
    }
}

} // verus!
