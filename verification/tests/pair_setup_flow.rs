//! End-to-end Pair-Setup flows against a simulated controller built on
//! the real SRP, SHA-512, Ed25519 and ChaCha20-Poly1305 implementations.

use chacha20_poly1305_aead as aead;
use crypto::ed25519;
use num::BigUint;
use sha2::{Digest, Sha512};
use srp::client::{srp_private_key, SrpClient};
use srp::groups::G_3072;

use hap_pairing::error::TlvError;
use hap_pairing::kdf::derive_key;
use hap_pairing::pair_setup::{PairSetup, Step};
use hap_pairing::store::{Config, Device, Event, PairingStore, Permissions};
use hap_pairing::tlv::{decode, encode_container, find_value, Value};

const PIN: &[u8] = b"031-45-154";
const CONTROLLER_UUID: &[u8] = b"5e94bc9a-54a0-478d-9d7e-943f4a162b67";

fn test_device() -> Device {
    let (sk, pk) = ed25519::keypair(&[7u8; 32]);
    Device::new(
        b"AA:BB:CC:DD:EE:FF".to_vec(),
        PIN.to_vec(),
        pk.to_vec(),
        sk.to_vec(),
    )
}

fn nonce(label: &[u8]) -> Vec<u8> {
    let mut n = vec![0u8; 4];
    n.extend_from_slice(label);
    n
}

fn get_field(c: &Vec<Value>, code: u8) -> Vec<u8> {
    let bytes = encode_container(c);
    let items = decode(&bytes).expect("container bytes decode");
    find_value(&items, code).expect("field present")
}

fn client_m1(salt: &[u8], a_pub: &[u8], b_pub: &[u8], key: &[u8]) -> Vec<u8> {
    let hn = BigUint::from_bytes_be(&Sha512::digest(&G_3072.n.to_bytes_be()));
    let hg = BigUint::from_bytes_be(&Sha512::digest(&G_3072.g.to_bytes_be()));
    let hng = (hn ^ hg).to_bytes_be();
    let hi = Sha512::digest(b"Pair-Setup");
    let mut d = Sha512::new();
    d.input(&hng);
    d.input(&hi);
    d.input(salt);
    d.input(a_pub);
    d.input(b_pub);
    d.input(key);
    d.result().to_vec()
}

struct ClientVerifyState {
    a_pub: Vec<u8>,
    key: Vec<u8>,
    m1: Vec<u8>,
}

fn run_start(ps: &mut PairSetup, device: &Device, store: &mut PairingStore) -> (Vec<u8>, Vec<u8>) {
    let mut events: Vec<Event> = Vec::new();
    let config = Config { max_peers: None };
    let body = encode_container(&vec![Value::State(1)]);
    let step = ps.parse(body).expect("start parses");
    let reply = ps
        .handle(step, device, &config, store, &mut events)
        .expect("start succeeds");
    let b_pub = get_field(&reply, 3);
    let salt = get_field(&reply, 2);
    assert_eq!(salt.len(), 16);
    (b_pub, salt)
}

fn client_verify_state(pin: &[u8], salt: &[u8], b_pub: &[u8]) -> ClientVerifyState {
    let a = [3u8; 64];
    let client = SrpClient::<Sha512>::new(&a, &G_3072);
    let a_pub = client.get_a_pub();
    let x = srp_private_key::<Sha512>(b"Pair-Setup", pin, salt);
    let verifier = client.process_reply(&x, b_pub).expect("b_pub accepted");
    // The accessory checks the RFC 5054 proof, not this crate's H(A|B|K),
    // so M1 is recomputed here from the shared key.
    let key = verifier.get_key().to_vec();
    let m1 = client_m1(salt, &a_pub, b_pub, &key);
    ClientVerifyState { a_pub, key, m1 }
}

fn run_verify(
    ps: &mut PairSetup,
    device: &Device,
    store: &mut PairingStore,
    st: &ClientVerifyState,
) -> Vec<u8> {
    let mut events: Vec<Event> = Vec::new();
    let config = Config { max_peers: None };
    let body = encode_container(&vec![
        Value::State(3),
        Value::PublicKey(st.a_pub.clone()),
        Value::Proof(st.m1.clone()),
    ]);
    let step = ps.parse(body).expect("verify parses");
    let reply = ps
        .handle(step, device, &config, store, &mut events)
        .expect("verify succeeds");
    get_field(&reply, 4)
}

fn exchange_data(st: &ClientVerifyState, controller_seed: &[u8; 32]) -> Vec<u8> {
    let (ctrl_sk, ctrl_pk) = ed25519::keypair(controller_seed);
    let device_x = derive_key(
        &st.key,
        &b"Pair-Setup-Controller-Sign-Salt".to_vec(),
        &b"Pair-Setup-Controller-Sign-Info".to_vec(),
        32,
    );
    let mut info = device_x.clone();
    info.extend_from_slice(CONTROLLER_UUID);
    info.extend_from_slice(&ctrl_pk);
    let sig = ed25519::signature(&info, &ctrl_sk);
    let sub = encode_container(&vec![
        Value::Identifier(CONTROLLER_UUID.to_vec()),
        Value::PublicKey(ctrl_pk.to_vec()),
        Value::Signature(sig.to_vec()),
    ]);
    let enc_key = derive_key(
        &st.key,
        &b"Pair-Setup-Encrypt-Salt".to_vec(),
        &b"Pair-Setup-Encrypt-Info".to_vec(),
        32,
    );
    let mut ct = Vec::new();
    let tag = aead::encrypt(&enc_key, &nonce(b"PS-Msg05"), &[], &sub, &mut ct).unwrap();
    ct.extend_from_slice(&tag);
    ct
}

#[test]
fn pair_setup_full_flow_stores_admin_pairing() {
    let device = test_device();
    let mut store = PairingStore::new();
    let mut ps = PairSetup::new();
    let mut events: Vec<Event> = Vec::new();
    let config = Config { max_peers: None };

    let (b_pub, salt) = run_start(&mut ps, &device, &mut store);
    let st = client_verify_state(PIN, &salt, &b_pub);
    let m2 = run_verify(&mut ps, &device, &mut store, &st);

    // The server proof must be H(A || M1 || K).
    let mut d = Sha512::new();
    d.input(&st.a_pub);
    d.input(&st.m1);
    d.input(&st.key);
    assert_eq!(m2, d.result().to_vec());

    let data = exchange_data(&st, &[9u8; 32]);
    let body = encode_container(&vec![Value::State(5), Value::EncryptedData(data)]);
    let step = ps.parse(body).expect("exchange parses");
    let reply = ps
        .handle(step, &device, &config, &mut store, &mut events)
        .expect("exchange succeeds");

    assert_eq!(store.count_pairings(), 1);
    let uuid_bytes = uuid::Uuid::parse_str(std::str::from_utf8(CONTROLLER_UUID).unwrap())
        .unwrap()
        .into_bytes()
        .to_vec();
    let pairing = store.load_pairing(&uuid_bytes).expect("pairing stored");
    assert!(matches!(pairing.permissions, Permissions::Admin));
    let (_, ctrl_pk) = ed25519::keypair(&[9u8; 32]);
    assert_eq!(pairing.public_key, ctrl_pk.to_vec());
    assert_eq!(events, vec![Event::DevicePaired]);

    // The reply carries state code 6 and an envelope that opens under the
    // same key with the reply nonce, holding the accessory's valid
    // signature over (accessory-sign value || id || public key).
    assert_eq!(get_field(&reply, 6), vec![6u8]);
    let enc = get_field(&reply, 5);
    let enc_key = derive_key(
        &st.key,
        &b"Pair-Setup-Encrypt-Salt".to_vec(),
        &b"Pair-Setup-Encrypt-Info".to_vec(),
        32,
    );
    let (ct, tag) = enc.split_at(enc.len() - 16);
    let mut plain = Vec::new();
    aead::decrypt(&enc_key, &nonce(b"PS-Msg06"), &[], ct, tag, &mut plain)
        .expect("reply envelope opens");
    let items = decode(&plain).expect("reply payload decodes");
    let acc_id = find_value(&items, 1).expect("accessory id");
    let acc_pk = find_value(&items, 3).expect("accessory key");
    let acc_sig = find_value(&items, 10).expect("accessory signature");
    assert_eq!(acc_id, device.id);
    assert_eq!(acc_pk, device.public_key);
    let acc_x = derive_key(
        &st.key,
        &b"Pair-Setup-Accessory-Sign-Salt".to_vec(),
        &b"Pair-Setup-Accessory-Sign-Info".to_vec(),
        32,
    );
    let mut acc_info = acc_x.clone();
    acc_info.extend_from_slice(&acc_id);
    acc_info.extend_from_slice(&acc_pk);
    assert!(ed25519::verify(&acc_info, &acc_pk, &acc_sig));
}

#[test]
fn wrong_password_proof_fails_authentication() {
    let device = test_device();
    let mut store = PairingStore::new();
    let mut ps = PairSetup::new();
    let mut events: Vec<Event> = Vec::new();
    let config = Config { max_peers: None };

    let (b_pub, salt) = run_start(&mut ps, &device, &mut store);
    let st = client_verify_state(b"999-99-999", &salt, &b_pub);
    let body = encode_container(&vec![
        Value::State(3),
        Value::PublicKey(st.a_pub.clone()),
        Value::Proof(st.m1.clone()),
    ]);
    let step = ps.parse(body).expect("verify parses");
    let err = ps
        .handle(step, &device, &config, &mut store, &mut events)
        .expect_err("wrong password must fail");
    assert_eq!(err.state, 4);
    assert_eq!(err.error, TlvError::Authentication);
    // The session must not advance past Start: no shared secret stored.
    assert!(ps.session.as_ref().expect("session kept").shared_secret.is_none());
}

#[test]
fn exchange_before_verify_fails_unknown() {
    let device = test_device();
    let mut store = PairingStore::new();
    let mut ps = PairSetup::new();
    let mut events: Vec<Event> = Vec::new();
    let config = Config { max_peers: None };

    let _ = run_start(&mut ps, &device, &mut store);
    let body = encode_container(&vec![
        Value::State(5),
        Value::EncryptedData(vec![0u8; 48]),
    ]);
    let step = ps.parse(body).expect("exchange parses");
    let err = ps
        .handle(step, &device, &config, &mut store, &mut events)
        .expect_err("exchange before verify must fail");
    assert_eq!(err.state, 6);
    assert_eq!(err.error, TlvError::Unknown);
    assert_eq!(store.count_pairings(), 0);
    assert!(events.is_empty());
}

#[test]
fn tampered_tag_fails_decryption() {
    let device = test_device();
    let mut store = PairingStore::new();
    let mut ps = PairSetup::new();
    let mut events: Vec<Event> = Vec::new();
    let config = Config { max_peers: None };

    let (b_pub, salt) = run_start(&mut ps, &device, &mut store);
    let st = client_verify_state(PIN, &salt, &b_pub);
    let _ = run_verify(&mut ps, &device, &mut store, &st);

    let mut data = exchange_data(&st, &[9u8; 32]);
    let last = data.len() - 1;
    data[last] ^= 0x01;  // flip one bit inside the authentication tag
    let body = encode_container(&vec![Value::State(5), Value::EncryptedData(data)]);
    let step = ps.parse(body).expect("exchange parses");
    let err = ps
        .handle(step, &device, &config, &mut store, &mut events)
        .expect_err("tampered tag must fail");
    assert_eq!(err.state, 6);
    assert_eq!(err.error, TlvError::Authentication);
    assert_eq!(store.count_pairings(), 0);
    assert!(events.is_empty());
}

#[test]
fn max_peers_reached_fails_and_store_unchanged() {
    let device = test_device();
    let mut store = PairingStore::new();
    let mut ps = PairSetup::new();
    let mut events: Vec<Event> = Vec::new();
    let config = Config { max_peers: Some(1) };

    let existing = hap_pairing::store::Pairing::new(
        vec![1u8; 16],
        Permissions::Admin,
        vec![2u8; 32],
    );
    store.save_pairing(existing);
    assert_eq!(store.count_pairings(), 1);

    let (b_pub, salt) = run_start(&mut ps, &device, &mut store);
    let st = client_verify_state(PIN, &salt, &b_pub);
    let _ = run_verify(&mut ps, &device, &mut store, &st);
    let data = exchange_data(&st, &[9u8; 32]);
    let body = encode_container(&vec![Value::State(5), Value::EncryptedData(data)]);
    let step = ps.parse(body).expect("exchange parses");
    let err = ps
        .handle(step, &device, &config, &mut store, &mut events)
        .expect_err("exchange over the ceiling must fail");
    assert_eq!(err.state, 6);
    assert_eq!(err.error, TlvError::MaxPeers);
    assert_eq!(store.count_pairings(), 1);
    assert!(events.is_empty());
}

#[test]
fn retry_ceiling_fails_max_tries() {
    let device = test_device();
    let mut store = PairingStore::new();
    let mut events: Vec<Event> = Vec::new();
    let config = Config { max_peers: None };
    let mut ps = PairSetup::new();
    ps.unsuccessful_tries = 100;
    let body = encode_container(&vec![Value::State(1)]);
    let step = ps.parse(body).expect("start parses");
    let err = ps
        .handle(step, &device, &config, &mut store, &mut events)
        .expect_err("over the retry ceiling must fail");
    assert_eq!(err.state, 2);
    assert_eq!(err.error, TlvError::MaxTries);
    assert_eq!(ps.unsuccessful_tries, 101);
}

#[test]
fn unknown_state_code_is_rejected_by_parse() {
    let ps = PairSetup::new();
    let body = encode_container(&vec![Value::State(9)]);
    let err = ps.parse(body).expect_err("unknown step must fail");
    assert_eq!(err.state, 0);
    assert_eq!(err.error, TlvError::Unknown);
    let err2 = ps.parse(Vec::new()).expect_err("empty body must fail");
    assert_eq!(err2.state, 0);
    assert_eq!(err2.error, TlvError::Unknown);
}

#[test]
fn verify_step_without_proof_field_is_rejected() {
    let ps = PairSetup::new();
    let body = encode_container(&vec![Value::State(3), Value::PublicKey(vec![1, 2, 3])]);
    let err = ps.parse(body).expect_err("missing proof must fail");
    assert_eq!(err.state, 4);
    assert_eq!(err.error, TlvError::Unknown);
}
