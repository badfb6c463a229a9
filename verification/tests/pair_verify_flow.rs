//! End-to-end Pair-Verify flows against a simulated controller built on
//! the real Curve25519, Ed25519 and ChaCha20-Poly1305 implementations.

use chacha20_poly1305_aead as aead;
use crypto::{curve25519, ed25519};

use hap_pairing::error::TlvError;
use hap_pairing::kdf::derive_key;
use hap_pairing::pair_verify::PairVerify;
use hap_pairing::store::{Device, Pairing, PairingStore, Permissions};
use hap_pairing::tlv::{decode, encode_container, find_value, Value};

const CONTROLLER_UUID: &[u8] = b"5e94bc9a-54a0-478d-9d7e-943f4a162b67";

fn test_device() -> Device {
    let (sk, pk) = ed25519::keypair(&[7u8; 32]);
    Device::new(
        b"AA:BB:CC:DD:EE:FF".to_vec(),
        b"031-45-154".to_vec(),
        pk.to_vec(),
        sk.to_vec(),
    )
}

fn nonce(label: &[u8]) -> Vec<u8> {
    let mut n = vec![0u8; 4];
    n.extend_from_slice(label);
    n
}

fn get_field(c: &Vec<Value>, code: u8) -> Vec<u8> {
    let bytes = encode_container(c);
    let items = decode(&bytes).expect("container bytes decode");
    find_value(&items, code).expect("field present")
}

fn uuid_bytes() -> Vec<u8> {
    uuid::Uuid::parse_str(std::str::from_utf8(CONTROLLER_UUID).unwrap())
        .unwrap()
        .into_bytes()
        .to_vec()
}

struct VerifyClient {
    a_pub: Vec<u8>,
    b_pub: Vec<u8>,
    session_key: Vec<u8>,
    shared_secret: Vec<u8>,
}

fn run_start(pv: &mut PairVerify, device: &Device, store: &PairingStore) -> VerifyClient {
    let a = [11u8; 32];
    let a_pub = curve25519::curve25519_base(&a).to_vec();
    let body = encode_container(&vec![Value::State(1), Value::PublicKey(a_pub.clone())]);
    let step = pv.parse(body).expect("start parses");
    let (reply, handoff) = pv.handle(step, device, store).expect("start succeeds");
    assert!(handoff.is_none());
    let b_pub = get_field(&reply, 3);
    let shared_secret = curve25519::curve25519(&a, &b_pub).to_vec();
    let session_key = derive_key(
        &shared_secret,
        &b"Pair-Verify-Encrypt-Salt".to_vec(),
        &b"Pair-Verify-Encrypt-Info".to_vec(),
        32,
    );

    // The Start reply's envelope must open under the session key and hold
    // the accessory's valid signature over (server pub || id || our pub).
    let enc = get_field(&reply, 5);
    let (ct, tag) = enc.split_at(enc.len() - 16);
    let mut plain = Vec::new();
    aead::decrypt(&session_key, &nonce(b"PV-Msg02"), &[], ct, tag, &mut plain)
        .expect("start envelope opens");
    let items = decode(&plain).expect("start payload decodes");
    let acc_id = find_value(&items, 1).expect("accessory id");
    let acc_sig = find_value(&items, 10).expect("accessory signature");
    assert_eq!(acc_id, device.id);
    let mut info = b_pub.clone();
    info.extend_from_slice(&acc_id);
    info.extend_from_slice(&a_pub);
    assert!(ed25519::verify(&info, &device.public_key, &acc_sig));

    VerifyClient { a_pub, b_pub, session_key, shared_secret }
}

fn finish_body(client: &VerifyClient, ctrl_seed: &[u8; 32]) -> Vec<u8> {
    let (ctrl_sk, _) = ed25519::keypair(ctrl_seed);
    let mut info = client.a_pub.clone();
    info.extend_from_slice(CONTROLLER_UUID);
    info.extend_from_slice(&client.b_pub);
    let sig = ed25519::signature(&info, &ctrl_sk);
    let sub = encode_container(&vec![
        Value::Identifier(CONTROLLER_UUID.to_vec()),
        Value::Signature(sig.to_vec()),
    ]);
    let mut ct = Vec::new();
    let tag = aead::encrypt(&client.session_key, &nonce(b"PV-Msg03"), &[], &sub, &mut ct)
        .unwrap();
    ct.extend_from_slice(&tag);
    encode_container(&vec![Value::State(3), Value::EncryptedData(ct)])
}

fn paired_store(ctrl_seed: &[u8; 32]) -> PairingStore {
    let (_, ctrl_pk) = ed25519::keypair(ctrl_seed);
    let mut store = PairingStore::new();
    store.save_pairing(Pairing::new(uuid_bytes(), Permissions::Admin, ctrl_pk.to_vec()));
    store
}

#[test]
fn pair_verify_full_flow_hands_off_session() {
    let device = test_device();
    let store = paired_store(&[9u8; 32]);
    let mut pv = PairVerify::new();

    let client = run_start(&mut pv, &device, &store);
    let body = finish_body(&client, &[9u8; 32]);
    let step = pv.parse(body).expect("finish parses");
    let (reply, handoff) = pv.handle(step, &device, &store).expect("finish succeeds");
    assert_eq!(get_field(&reply, 6), vec![4u8]);
    let session = handoff.expect("session handed off");
    assert_eq!(session.controller_id, uuid_bytes());
    assert_eq!(session.shared_secret, client.shared_secret);
}

#[test]
fn finish_with_wrong_key_fails_authentication() {
    let device = test_device();
    // The stored pairing holds the key of one controller; the finish
    // payload is signed by a different one.
    let store = paired_store(&[9u8; 32]);
    let mut pv = PairVerify::new();

    let client = run_start(&mut pv, &device, &store);
    let body = finish_body(&client, &[13u8; 32]);
    let step = pv.parse(body).expect("finish parses");
    let err = pv
        .handle(step, &device, &store)
        .expect_err("wrong signing key must fail");
    assert_eq!(err.state, 4);
    assert_eq!(err.error, TlvError::Authentication);
}

#[test]
fn second_handoff_attempt_fails() {
    let device = test_device();
    let store = paired_store(&[9u8; 32]);
    let mut pv = PairVerify::new();

    let client = run_start(&mut pv, &device, &store);
    let body = finish_body(&client, &[9u8; 32]);
    let step = pv.parse(body).expect("finish parses");
    let (_, handoff) = pv.handle(step, &device, &store).expect("first finish succeeds");
    assert!(handoff.is_some());

    // A second, otherwise identical Finish on the consumed session.
    let body2 = finish_body(&client, &[9u8; 32]);
    let step2 = pv.parse(body2).expect("finish parses");
    let err = pv
        .handle(step2, &device, &store)
        .expect_err("second hand-off must fail");
    assert_eq!(err.state, 4);
    assert_eq!(err.error, TlvError::Unknown);
}

#[test]
fn finish_for_unknown_pairing_fails() {
    let device = test_device();
    let store = PairingStore::new();  // nothing on file
    let mut pv = PairVerify::new();

    let client = run_start(&mut pv, &device, &store);
    let body = finish_body(&client, &[9u8; 32]);
    let step = pv.parse(body).expect("finish parses");
    let err = pv
        .handle(step, &device, &store)
        .expect_err("unknown pairing must fail");
    assert_eq!(err.state, 4);
    assert_eq!(err.error, TlvError::Unknown);
}

#[test]
fn finish_without_start_fails_unknown() {
    let device = test_device();
    let store = paired_store(&[9u8; 32]);
    let mut pv = PairVerify::new();
    let body = encode_container(&vec![
        Value::State(3),
        Value::EncryptedData(vec![0u8; 32]),
    ]);
    let step = pv.parse(body).expect("finish parses");
    let err = pv
        .handle(step, &device, &store)
        .expect_err("finish without start must fail");
    assert_eq!(err.state, 4);
    assert_eq!(err.error, TlvError::Unknown);
}
