//! Component-level checks: the TLV codec, the key-derivation helper held
//! against ring, the big-endian xor against num, the SRP proof equations,
//! and the byte-payload holder.

use num::BigUint;
use sha2::{Digest, Sha512};
use srp::groups::G_3072;

use hap_pairing::kdf::{derive_key, PayloadU8};
use hap_pairing::srp_proof::{verify_client_proof, xor_strip};
use hap_pairing::tlv::{decode, encode_container, encode_value, find_value, Value};

#[test]
fn tlv_round_trip_simple_container() {
    let c = vec![
        Value::State(2),
        Value::PublicKey(vec![1, 2, 3, 4]),
        Value::Salt(vec![9; 16]),
    ];
    let bytes = encode_container(&c);
    let items = decode(&bytes).expect("decodes");
    assert_eq!(find_value(&items, 6).unwrap(), vec![2]);
    assert_eq!(find_value(&items, 3).unwrap(), vec![1, 2, 3, 4]);
    assert_eq!(find_value(&items, 2).unwrap(), vec![9; 16]);
    assert!(find_value(&items, 10).is_none());
}

#[test]
fn tlv_fragments_long_value_and_rejoins_it() {
    let long: Vec<u8> = (0..600).map(|i| (i % 251) as u8).collect();
    let bytes = encode_value(3, &long);
    // Three fragments: 255 + 255 + 90 bytes, two bytes of header each.
    assert_eq!(bytes.len(), 600 + 6);
    assert_eq!(bytes[0], 3);
    assert_eq!(bytes[1], 255);
    let items = decode(&bytes).expect("decodes");
    assert_eq!(find_value(&items, 3).unwrap(), long);
}

#[test]
fn tlv_truncated_record_is_rejected() {
    assert!(decode(&vec![6u8]).is_none());
    assert!(decode(&vec![6u8, 5, 1, 2]).is_none());
    assert!(decode(&Vec::new()).unwrap().is_empty());
}

#[test]
fn derive_key_matches_ring_hkdf_sha512() {
    let secret = vec![42u8; 64];
    let salt = b"Pair-Setup-Encrypt-Salt".to_vec();
    let info = b"Pair-Setup-Encrypt-Info".to_vec();
    let ours = derive_key(&secret, &salt, &info, 32);

    let prk = ring::hkdf::Salt::new(ring::hkdf::HKDF_SHA512, &salt).extract(&secret);
    let info_parts: [&[u8]; 1] = [&info];
    let okm = prk.expand(&info_parts, ring::hkdf::HKDF_SHA512).unwrap();
    let mut full = [0u8; 64];
    okm.fill(&mut full).unwrap();
    assert_eq!(ours, full[..32].to_vec());
}

#[test]
fn xor_strip_matches_biguint_xor() {
    let a: Vec<u8> = (0..64).map(|i| i as u8).collect();
    let b: Vec<u8> = (0..64).map(|i| (255 - i) as u8).collect();
    let expected = (BigUint::from_bytes_be(&a) ^ BigUint::from_bytes_be(&b)).to_bytes_be();
    assert_eq!(xor_strip(&a, &b), expected);

    // Leading zeroes of the xor are stripped as the number's bytes are.
    let c = vec![0u8, 0, 7, 1];
    let d = vec![0u8, 0, 7, 2];
    let expected2 = (BigUint::from_bytes_be(&c) ^ BigUint::from_bytes_be(&d)).to_bytes_be();
    assert_eq!(xor_strip(&c, &d), expected2);
    assert_eq!(xor_strip(&c, &d), vec![3]);

    // The all-zero xor is the single zero byte, as num writes zero.
    let z = vec![5u8; 16];
    assert_eq!(xor_strip(&z, &z), vec![0]);
}

fn manual_m1(salt: &[u8], a_pub: &[u8], b_pub: &[u8], key: &[u8]) -> Vec<u8> {
    let hn = BigUint::from_bytes_be(&Sha512::digest(&G_3072.n.to_bytes_be()));
    let hg = BigUint::from_bytes_be(&Sha512::digest(&G_3072.g.to_bytes_be()));
    let hng = (hn ^ hg).to_bytes_be();
    let hi = Sha512::digest(b"Pair-Setup");
    let mut d = Sha512::new();
    d.input(&hng);
    d.input(&hi);
    d.input(salt);
    d.input(a_pub);
    d.input(b_pub);
    d.input(key);
    d.result().to_vec()
}

#[test]
fn server_proof_is_deterministic_for_same_inputs() {
    let salt = vec![1u8; 16];
    let a_pub = vec![2u8; 384];
    let b_pub = vec![3u8; 384];
    let key = vec![4u8; 64];
    let m1 = manual_m1(&salt, &a_pub, &b_pub, &key);
    let first = verify_client_proof(&b_pub, &a_pub, &m1, &salt, &key).expect("proof matches");
    let second = verify_client_proof(&b_pub, &a_pub, &m1, &salt, &key).expect("proof matches");
    assert_eq!(first, second);
    // And it is exactly H(A || M1 || K).
    let mut d = Sha512::new();
    d.input(&a_pub);
    d.input(&m1);
    d.input(&key);
    assert_eq!(first, d.result().to_vec());
}

#[test]
fn wrong_client_proof_is_rejected() {
    let salt = vec![1u8; 16];
    let a_pub = vec![2u8; 384];
    let b_pub = vec![3u8; 384];
    let key = vec![4u8; 64];
    let mut m1 = manual_m1(&salt, &a_pub, &b_pub, &key);
    m1[0] ^= 0xff;
    assert!(verify_client_proof(&b_pub, &a_pub, &m1, &salt, &key).is_err());
}

#[test]
fn payload_u8_holds_bytes() {
    let p = PayloadU8::new(vec![1, 2, 3]);
    assert_eq!(p.into_inner(), vec![1, 2, 3]);
    let e = PayloadU8::empty();
    assert!(e.into_inner().is_empty());
}
