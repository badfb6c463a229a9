//! The Pair-Setup state machine: the six-message SRP-based first-time
//! pairing flow. Start issues salt and server public value, Verify checks
//! the client proof and answers with the server proof, Exchange decrypts
//! the controller's identity, persists the trust record and answers with
//! the accessory's own encrypted identity.

use vstd::prelude::*;

use crate::bytes::{concat3, copy_bytes, subrange_vec};
use crate::crypto::{
    aead_open, aead_seal, aead_seal_of, ed25519_check, ed25519_sig_of, ed25519_sign,
    ed25519_verifies, random_bytes, srp_b_pub_of, srp_key_of, srp_malicious_a,
    srp_password_verifier, srp_private_key_sha512, srp_server_b_pub, srp_server_key,
    srp_verifier_of, srp_x_of, uuid_parse, uuid_parse_of,
};
use crate::error::{ErrorContainer, TlvError};
use crate::kdf::{derive_key, spec_derive};
use crate::labels::{
    nonce_ps_msg05, nonce_ps_msg06, pair_setup, ps_accessory_sign_info, ps_accessory_sign_salt,
    ps_controller_sign_info, ps_controller_sign_salt, ps_encrypt_info, ps_encrypt_salt,
    server_identity, spec_nonce_ps_msg05, spec_nonce_ps_msg06, spec_pair_setup,
    spec_ps_accessory_sign_info, spec_ps_accessory_sign_salt, spec_ps_controller_sign_info,
    spec_ps_controller_sign_salt, spec_ps_encrypt_info, spec_ps_encrypt_salt,
    spec_server_identity,
};
use crate::srp_proof::{spec_m1, spec_m2, verify_client_proof};
use crate::store::{spec_saved, Config, Device, Event, Pairing, PairingStore, Permissions};
use crate::tlv::{
    decode, find_value, lemma_encode_value_len, lemma_encode_value_short, spec_decode,
    spec_encode_items,
    spec_encode_value, spec_find, Value, TYPE_ENCRYPTED_DATA, TYPE_IDENTIFIER, TYPE_PROOF,
    TYPE_PUBLIC_KEY, TYPE_SIGNATURE, TYPE_STATE,
};

verus! {

/// Response state code of the Start step.
pub const STATE_START_RES: u8 = 2;

/// Response state code of the Verify step.
pub const STATE_VERIFY_RES: u8 = 4;

/// Response state code of the Exchange step.
pub const STATE_EXCHANGE_RES: u8 = 6;

/// One Pair-Setup handshake attempt's state, created by Start.
pub struct Session {
    /// The 16-byte random salt issued on Start.
    pub salt: Vec<u8>,
    /// The SRP password verifier derived from the accessory PIN.
    pub verifier: Vec<u8>,
    /// The 64-byte random server private exponent.
    pub b: Vec<u8>,
    /// The SRP server public value.
    pub b_pub: Vec<u8>,
    /// The shared secret, stored by a successful Verify.
    pub shared_secret: Option<Vec<u8>>,
}

/// The Pair-Setup handler: the current session, if any, and the count of
/// consecutive failed steps.
pub struct PairSetup {
    /// The current handshake attempt, if a Start step created one.
    pub session: Option<Session>,
    /// Consecutive failed steps; the handshake is refused above 99.
    pub unsuccessful_tries: u8,
}

impl PairSetup {
    /// A fresh handler: no session, no failed tries.
    pub fn new() -> (r: PairSetup)
        ensures
            r.session is None,
            r.unsuccessful_tries == 0,
    {
        PairSetup { session: None, unsuccessful_tries: 0 }
    }
}

/// A parsed Pair-Setup request.
#[derive(Debug)]
pub enum Step {
    /// Message 1: begin a handshake.
    Start,
    /// Message 3: the client's public value and proof.
    Verify {
        /// The client's SRP public value `A`.
        a_pub: Vec<u8>,
        /// The client's proof `M1`.
        a_proof: Vec<u8>,
    },
    /// Message 5: the encrypted identity exchange payload.
    Exchange {
        /// Ciphertext with its trailing 16-byte tag.
        data: Vec<u8>,
    },
}

/// The decoded value of one field of a request body.
pub open spec fn spec_field(body: Seq<u8>, t: u8) -> Option<Seq<u8>> {
    match spec_decode(body) {
        Some(items) => spec_find(items, t),
        None => None,
    }
}

/// The state code the client expects in the reply to a step.
pub open spec fn spec_response_state(step: Step) -> u8 {
    match step {
        Step::Start => STATE_START_RES,
        Step::Verify { .. } => STATE_VERIFY_RES,
        Step::Exchange { .. } => STATE_EXCHANGE_RES,
    }
}

/// The counter after one more failed step: one higher, saturating.
pub open spec fn spec_bump(t: u8) -> u8 {
    if t < 255 {
        (t + 1) as u8
    } else {
        255u8
    }
}

/// What a successful Start step leaves behind: a fresh session whose
/// verifier comes from the PIN and salt, and the reply carrying state
/// code 2, the server public value and the salt.
pub open spec fn spec_start_post(s: Session, device: Device, c: Seq<Value>) -> bool {
    &&& s.salt@.len() == 16
    &&& s.b@.len() == 64
    &&& s.verifier@ == srp_verifier_of(srp_x_of(spec_pair_setup(), device.pin@, s.salt@))
    &&& s.b_pub@ == srp_b_pub_of(s.verifier@, s.b@)
    &&& s.shared_secret is None
    &&& c.len() == 3
    &&& c[0] == Value::State(STATE_START_RES)
    &&& (c[1] matches Value::PublicKey(k) && k@ == s.b_pub@)
    &&& (c[2] matches Value::Salt(sl) && sl@ == s.salt@)
}

/// The SRP shared secret of a session for a given client public value.
pub open spec fn spec_session_key(s: Session, a_pub: Seq<u8>) -> Seq<u8> {
    srp_key_of(s.verifier@, s.b@, a_pub)
}

/// What a successful Verify step leaves behind: the same session with the
/// shared secret stored, and the reply carrying state code 4 and the
/// server proof `M2`.
pub open spec fn spec_verify_post(
    s: Session,
    a_pub: Seq<u8>,
    a_proof: Seq<u8>,
    after: Option<Session>,
    c: Seq<Value>,
) -> bool {
    &&& (after matches Some(t) && t.salt@ == s.salt@ && t.verifier@ == s.verifier@ && t.b@
        == s.b@ && t.b_pub@ == s.b_pub@ && (t.shared_secret matches Some(k) && k@
        == spec_session_key(s, a_pub)))
    &&& c.len() == 2
    &&& c[0] == Value::State(STATE_VERIFY_RES)
    &&& (c[1] matches Value::Proof(pf) && pf@ == spec_m2(a_pub, a_proof, spec_session_key(
        s,
        a_pub,
    )))
}

/// The shared secret of the handler's session, when Verify stored one.
pub open spec fn spec_ready(h: PairSetup) -> Option<Seq<u8>> {
    match h.session {
        Some(s) => match s.shared_secret {
            Some(k) => Some(k@),
            None => None,
        },
        None => None,
    }
}

/// Whether the configured peer ceiling refuses one more pairing.
pub open spec fn spec_peer_limit_reached(config: Config, count: nat) -> bool {
    match config.max_peers {
        Some(mp) => count + 1 > mp,
        None => false,
    }
}

/// The symmetric key of the Exchange step's envelope.
pub open spec fn spec_enc_key(ss: Seq<u8>) -> Seq<u8> {
    spec_derive(ss, spec_ps_encrypt_salt(), spec_ps_encrypt_info(), 32)
}

/// Whether `p` is the plaintext the Exchange envelope carries.
pub open spec fn spec_valid_seal(ss: Seq<u8>, data: Seq<u8>, p: Seq<u8>) -> bool {
    p.len() + 16 == data.len() && data == aead_seal_of(
        spec_enc_key(ss),
        spec_nonce_ps_msg05(),
        p,
    )
}

/// Whether a decrypted Exchange payload is accepted: identifier, key and
/// signature present, the key 32 and the signature 64 bytes, the Ed25519
/// signature over `(controller-sign value || id || key)` valid under the
/// claimed key, and the identifier a well-formed UUID.
pub open spec fn spec_exchange_accepts(p: Seq<u8>, ss: Seq<u8>) -> bool {
    &&& (spec_field(p, TYPE_IDENTIFIER) matches Some(id) && (spec_field(
        p,
        TYPE_PUBLIC_KEY,
    ) matches Some(ltpk) && (spec_field(p, TYPE_SIGNATURE) matches Some(sig) && {
        &&& ltpk.len() == 32
        &&& sig.len() == 64
        &&& ed25519_verifies(
            spec_derive(
                ss,
                spec_ps_controller_sign_salt(),
                spec_ps_controller_sign_info(),
                32,
            ) + id + ltpk,
            ltpk,
            sig,
        )
        &&& uuid_parse_of(id) is Some
    })))
}

/// The accessory's encrypted Exchange reply payload: its identifier,
/// public key and signature over `(accessory-sign value || id || key)`,
/// TLV-encoded and sealed under the envelope key with the reply nonce.
pub open spec fn spec_exchange_reply(ss: Seq<u8>, device: Device) -> Seq<u8> {
    aead_seal_of(
        spec_enc_key(ss),
        spec_nonce_ps_msg06(),
        spec_encode_items(
            seq![
                (TYPE_IDENTIFIER, device.id@),
                (TYPE_PUBLIC_KEY, device.public_key@),
                (
                    TYPE_SIGNATURE,
                    ed25519_sig_of(
                        spec_derive(
                            ss,
                            spec_ps_accessory_sign_salt(),
                            spec_ps_accessory_sign_info(),
                            32,
                        ) + device.id@ + device.public_key@,
                        device.private_key@,
                    ),
                ),
            ],
        ),
    )
}

/// The store after a successful Exchange: the pairing of the payload's
/// UUID saved with admin permission and the payload's long-term key.
pub open spec fn spec_exchange_saved(p: Seq<u8>, olds: Seq<Pairing>, news: Seq<Pairing>) -> bool {
    exists|q: Pairing|
        {
            &&& (spec_field(p, TYPE_IDENTIFIER) matches Some(id) && uuid_parse_of(id)
                == Some(q.id@))
            &&& q.permissions == Permissions::Admin
            &&& (spec_field(p, TYPE_PUBLIC_KEY) matches Some(ltpk) && q.public_key@ == ltpk)
            &&& #[trigger] spec_saved(olds, news, q)
        }
}

/// Everything a successful Exchange step did, for the plaintext `p` the
/// envelope carried: the trust record saved, one pairing notification
/// appended, and the reply carrying state code 6 and the sealed reply.
pub open spec fn spec_exchange_post(
    ss: Seq<u8>,
    p: Seq<u8>,
    device: Device,
    olds: Seq<Pairing>,
    news: Seq<Pairing>,
    oldev: Seq<Event>,
    newev: Seq<Event>,
    c: Seq<Value>,
) -> bool {
    &&& spec_exchange_accepts(p, ss)
    &&& spec_exchange_saved(p, olds, news)
    &&& newev == oldev.push(Event::DevicePaired)
    &&& c.len() == 2
    &&& c[0] == Value::State(STATE_EXCHANGE_RES)
    &&& (c[1] matches Value::EncryptedData(e) && e@ == spec_exchange_reply(ss, device))
}

impl PairSetup {
    /// Parses a request body: reads the state code and, per step, the
    /// fields that step requires; a missing field or an unknown state
    /// code is an "unknown" error tagged with the state code the client
    /// expects for that step's reply.
    pub fn parse(&self, body: Vec<u8>) -> (r: Result<Step, ErrorContainer>)
        ensures
            (spec_field(body@, TYPE_STATE) is None || spec_field(
                body@,
                TYPE_STATE,
            ).unwrap().len() == 0) ==> r == Err::<Step, ErrorContainer>(
                ErrorContainer { state: 0, error: TlvError::Unknown },
            ),
            spec_field(body@, TYPE_STATE) matches Some(st) ==> (st.len() > 0 ==> {
                &&& (st[0] == 1 ==> (r matches Ok(s) && s is Start))
                &&& (st[0] == 3 ==> (match (
                    spec_field(body@, TYPE_PUBLIC_KEY),
                    spec_field(body@, TYPE_PROOF),
                ) {
                    (Some(pk), Some(pf)) => (r matches Ok(Step::Verify { a_pub, a_proof })
                        && a_pub@ == pk && a_proof@ == pf),
                    _ => r == Err::<Step, ErrorContainer>(
                        ErrorContainer { state: STATE_VERIFY_RES, error: TlvError::Unknown },
                    ),
                }))
                &&& (st[0] == 5 ==> (match spec_field(body@, TYPE_ENCRYPTED_DATA) {
                    Some(d) => (r matches Ok(Step::Exchange { data }) && data@ == d),
                    None => r == Err::<Step, ErrorContainer>(
                        ErrorContainer { state: STATE_EXCHANGE_RES, error: TlvError::Unknown },
                    ),
                }))
                &&& ((st[0] != 1 && st[0] != 3 && st[0] != 5) ==> r == Err::<
                    Step,
                    ErrorContainer,
                >(ErrorContainer { state: 0, error: TlvError::Unknown }))
            }),
    {
        let items = match decode(&body) {
            Some(items) => items,
            None => {
                return Err(ErrorContainer::new(0, TlvError::Unknown));
            },
        };
        let st = match find_value(&items, TYPE_STATE) {
            Some(st) => st,
            None => {
                return Err(ErrorContainer::new(0, TlvError::Unknown));
            },
        };
        if st.len() == 0 {
            return Err(ErrorContainer::new(0, TlvError::Unknown));
        }
        if st[0] == 1 {
            Ok(Step::Start)
        } else if st[0] == 3 {
            let a_pub = match find_value(&items, TYPE_PUBLIC_KEY) {
                Some(v) => v,
                None => {
                    return Err(ErrorContainer::new(STATE_VERIFY_RES, TlvError::Unknown));
                },
            };
            let a_proof = match find_value(&items, TYPE_PROOF) {
                Some(v) => v,
                None => {
                    return Err(ErrorContainer::new(STATE_VERIFY_RES, TlvError::Unknown));
                },
            };
            Ok(Step::Verify { a_pub, a_proof })
        } else if st[0] == 5 {
            let data = match find_value(&items, TYPE_ENCRYPTED_DATA) {
                Some(v) => v,
                None => {
                    return Err(ErrorContainer::new(STATE_EXCHANGE_RES, TlvError::Unknown));
                },
            };
            Ok(Step::Exchange { data })
        } else {
            Err(ErrorContainer::new(0, TlvError::Unknown))
        }
    }

    /// Executes one parsed step: dispatches to the step's handler, resets
    /// the retry counter on success, bumps it on failure, and tags every
    /// error with the state code the client expects for that reply.
    pub fn handle(
        &mut self,
        step: Step,
        device: &Device,
        config: &Config,
        store: &mut PairingStore,
        events: &mut Vec<Event>,
    ) -> (r: Result<Vec<Value>, ErrorContainer>)
        requires
            device.wf(),
            old(store).wf(),
        ensures
            final(store).wf(),
            r is Ok ==> final(self).unsuccessful_tries == 0,
            r is Err ==> final(self).unsuccessful_tries == spec_bump(
                old(self).unsuccessful_tries,
            ),
            r matches Err(ec) ==> ec.state == spec_response_state(step),
            r is Err ==> final(store).pairings@ == old(store).pairings@ && final(events)@
                == old(events)@ && final(self).session == old(self).session,
            (step is Start && old(self).unsuccessful_tries > 99) ==> (r matches Err(ec)
                && ec.error == TlvError::MaxTries),
            (step is Start && old(self).unsuccessful_tries <= 99) ==> r is Ok,
            r matches Ok(c) ==> (step is Start ==> (final(self).session matches Some(s)
                && spec_start_post(s, *device, c@))),
            step matches Step::Verify { a_pub, a_proof } ==> {
                &&& (old(self).session is None ==> (r matches Err(ec) && ec.error
                    == TlvError::Unknown))
                &&& (old(self).session matches Some(s) ==> {
                    &&& (a_proof@ != spec_m1(
                        s.salt@,
                        a_pub@,
                        s.b_pub@,
                        spec_session_key(s, a_pub@),
                    ) ==> (r matches Err(ec) && ec.error == TlvError::Authentication))
                    &&& ((!srp_malicious_a(a_pub@) && a_proof@ == spec_m1(
                        s.salt@,
                        a_pub@,
                        s.b_pub@,
                        spec_session_key(s, a_pub@),
                    )) ==> (r matches Ok(c) && spec_verify_post(
                        s,
                        a_pub@,
                        a_proof@,
                        final(self).session,
                        c@,
                    )))
                })
            },
            step matches Step::Exchange { data } ==> {
                &&& (spec_ready(*old(self)) is None ==> (r matches Err(ec) && ec.error
                    == TlvError::Unknown))
                &&& (spec_ready(*old(self)) matches Some(ss) ==> {
                    &&& (spec_peer_limit_reached(*config, old(store).pairings@.len()) ==> (r
                        matches Err(ec) && ec.error == TlvError::MaxPeers))
                    &&& ((!spec_peer_limit_reached(*config, old(store).pairings@.len()) && 16
                        <= data@.len() < 0x1000010 && !(exists|p: Seq<u8>|
                        #[trigger] spec_valid_seal(ss, data@, p))) ==> (r matches Err(ec)
                        && ec.error == TlvError::Authentication))
                    &&& ((!spec_peer_limit_reached(*config, old(store).pairings@.len()) && 16
                        <= data@.len() < 0x1000010 && (exists|p: Seq<u8>|
                        #[trigger] spec_valid_seal(ss, data@, p) && spec_exchange_accepts(
                        p,
                        ss,
                    ))) ==> r is Ok)
                    &&& (r matches Ok(c) ==> exists|p: Seq<u8>|
                        #[trigger] spec_valid_seal(ss, data@, p) && spec_exchange_post(
                            ss,
                            p,
                            *device,
                            old(store).pairings@,
                            final(store).pairings@,
                            old(events)@,
                            final(events)@,
                            c@,
                        ))
                })
            },
    {
        match step {
            Step::Start => match handle_start(self, device) {
                Ok(res) => {
                    self.unsuccessful_tries = 0;
                    Ok(res)
                },
                Err(err) => {
                    if self.unsuccessful_tries < 255 {
                        self.unsuccessful_tries = self.unsuccessful_tries + 1;
                    }
                    Err(ErrorContainer::new(STATE_START_RES, err))
                },
            },
            Step::Verify { a_pub, a_proof } => match handle_verify(self, &a_pub, &a_proof) {
                Ok(res) => {
                    self.unsuccessful_tries = 0;
                    Ok(res)
                },
                Err(err) => {
                    if self.unsuccessful_tries < 255 {
                        self.unsuccessful_tries = self.unsuccessful_tries + 1;
                    }
                    Err(ErrorContainer::new(STATE_VERIFY_RES, err))
                },
            },
            Step::Exchange { data } => match handle_exchange(
                self,
                device,
                config,
                store,
                events,
                &data,
            ) {
                Ok(res) => {
                    self.unsuccessful_tries = 0;
                    Ok(res)
                },
                Err(err) => {
                    if self.unsuccessful_tries < 255 {
                        self.unsuccessful_tries = self.unsuccessful_tries + 1;
                    }
                    Err(ErrorContainer::new(STATE_EXCHANGE_RES, err))
                },
            },
        }
    }
}

/// Start: refuses above the retry ceiling, else draws a fresh salt and
/// server exponent, derives the verifier from the PIN, and issues the
/// server public value and the salt.
pub fn handle_start(handler: &mut PairSetup, device: &Device) -> (r: Result<Vec<Value>, TlvError>)
    ensures
        final(handler).unsuccessful_tries == old(handler).unsuccessful_tries,
        old(handler).unsuccessful_tries > 99 ==> r == Err::<Vec<Value>, TlvError>(
            TlvError::MaxTries,
        ) && final(handler).session == old(handler).session,
        old(handler).unsuccessful_tries <= 99 ==> r is Ok,
        r matches Ok(c) ==> (final(handler).session matches Some(s) && spec_start_post(
            s,
            *device,
            c@,
        )),
        r is Err ==> final(handler).session == old(handler).session,
{
    if handler.unsuccessful_tries > 99 {
        return Err(TlvError::MaxTries);
    }
    let salt = random_bytes(16);
    let b = random_bytes(64);
    let username = pair_setup();
    let private_key = srp_private_key_sha512(&username, &device.pin, &salt);
    let verifier = srp_password_verifier(&private_key);
    let probe = server_identity();
    assert(spec_server_identity()[0] == 102);
    match srp_server_b_pub(&username, &salt, &verifier, &probe, &b) {
        Some(b_pub) => {
            let reply_pub = copy_bytes(&b_pub);
            let reply_salt = copy_bytes(&salt);
            handler.session = Some(
                Session { salt, verifier, b, b_pub, shared_secret: None },
            );
            let c: Vec<Value> = vec![
                Value::State(STATE_START_RES),
                Value::PublicKey(reply_pub),
                Value::Salt(reply_salt),
            ];
            Ok(c)
        },
        None => {
            assert(false);
            Err(TlvError::Unknown)
        },
    }
}

/// Verify: reconstructs the SRP server from the stored session and the
/// client's public value, checks the client proof, and on a match stores
/// the shared secret and answers with the server proof.
pub fn handle_verify(handler: &mut PairSetup, a_pub: &Vec<u8>, a_proof: &Vec<u8>) -> (r: Result<
    Vec<Value>,
    TlvError,
>)
    ensures
        final(handler).unsuccessful_tries == old(handler).unsuccessful_tries,
        old(handler).session is None ==> r == Err::<Vec<Value>, TlvError>(TlvError::Unknown)
            && final(handler).session == old(handler).session,
        old(handler).session matches Some(s) ==> {
            &&& (srp_malicious_a(a_pub@) ==> r == Err::<Vec<Value>, TlvError>(
                TlvError::Authentication,
            ) && final(handler).session == old(handler).session)
            &&& ((!srp_malicious_a(a_pub@) && a_proof@ != spec_m1(
                s.salt@,
                a_pub@,
                s.b_pub@,
                spec_session_key(s, a_pub@),
            )) ==> r == Err::<Vec<Value>, TlvError>(TlvError::Authentication)
                && final(handler).session == old(handler).session)
            &&& ((!srp_malicious_a(a_pub@) && a_proof@ == spec_m1(
                s.salt@,
                a_pub@,
                s.b_pub@,
                spec_session_key(s, a_pub@),
            )) ==> (r matches Ok(c) && spec_verify_post(
                s,
                a_pub@,
                a_proof@,
                final(handler).session,
                c@,
            )))
        },
{
    let (salt, verifier, b, b_pub) = match &handler.session {
        None => {
            return Err(TlvError::Unknown);
        },
        Some(s) => (
            copy_bytes(&s.salt),
            copy_bytes(&s.verifier),
            copy_bytes(&s.b),
            copy_bytes(&s.b_pub),
        ),
    };
    let username = pair_setup();
    let key = match srp_server_key(&username, &salt, &verifier, a_pub, &b) {
        None => {
            return Err(TlvError::Authentication);
        },
        Some(k) => k,
    };
    match verify_client_proof(&b_pub, a_pub, a_proof, &salt, &key) {
        Err(e) => Err(e),
        Ok(b_proof) => {
            handler.session = Some(
                Session { salt, verifier, b, b_pub, shared_secret: Some(key) },
            );
            let c: Vec<Value> = vec![Value::State(STATE_VERIFY_RES), Value::Proof(b_proof)];
            Ok(c)
        },
    }
}

/// Exchange: enforces the peer ceiling, opens the encrypted identity
/// envelope, and hands the plaintext on for verification, persistence
/// and the accessory's reply.
#[verifier::rlimit(60)]
pub fn handle_exchange(
    handler: &PairSetup,
    device: &Device,
    config: &Config,
    store: &mut PairingStore,
    events: &mut Vec<Event>,
    data: &Vec<u8>,
) -> (r: Result<Vec<Value>, TlvError>)
    requires
        device.wf(),
        old(store).wf(),
    ensures
        final(store).wf(),
        spec_ready(*handler) is None ==> r == Err::<Vec<Value>, TlvError>(TlvError::Unknown),
        r is Err ==> final(store).pairings@ == old(store).pairings@ && final(events)@ == old(events)@,
        spec_ready(*handler) matches Some(ss) ==> (spec_peer_limit_reached(
            *config,
            old(store).pairings@.len(),
        ) ==> r == Err::<Vec<Value>, TlvError>(TlvError::MaxPeers)),
        spec_ready(*handler) matches Some(ss) ==> ((!spec_peer_limit_reached(
            *config,
            old(store).pairings@.len(),
        ) && (data@.len() < 16 || data@.len() >= 0x1000010)) ==> r == Err::<
            Vec<Value>,
            TlvError,
        >(TlvError::Unknown)),
        spec_ready(*handler) matches Some(ss) ==> ((!spec_peer_limit_reached(
            *config,
            old(store).pairings@.len(),
        ) && 16 <= data@.len() < 0x1000010 && !(exists|p: Seq<u8>|
            #[trigger] spec_valid_seal(ss, data@, p))) ==> r == Err::<Vec<Value>, TlvError>(
            TlvError::Authentication,
        )),
        spec_ready(*handler) matches Some(ss) ==> ((!spec_peer_limit_reached(
            *config,
            old(store).pairings@.len(),
        ) && 16 <= data@.len() < 0x1000010 && (exists|p: Seq<u8>|
            #[trigger] spec_valid_seal(ss, data@, p) && spec_exchange_accepts(p, ss))) ==> r
            is Ok),
        spec_ready(*handler) matches Some(ss) ==> (r matches Ok(c) ==> exists|p: Seq<u8>|
            #[trigger] spec_valid_seal(ss, data@, p) && spec_exchange_post(
                ss,
                p,
                *device,
                old(store).pairings@,
                final(store).pairings@,
                old(events)@,
                final(events)@,
                c@,
            )),
{
    let ghost store0 = store.pairings@;
    let ghost events0 = events@;
    let shared_secret = match &handler.session {
        None => {
            return Err(TlvError::Unknown);
        },
        Some(s) => match &s.shared_secret {
            None => {
                return Err(TlvError::Unknown);
            },
            Some(k) => copy_bytes(k),
        },
    };
    assert(spec_ready(*handler) == Some(shared_secret@));
    let ghost ssx = spec_ready(*handler)->Some_0;
    assert(ssx == shared_secret@);
    if let Some(mp) = config.max_peers {
        let current = store.count_pairings();
        if current >= mp {
            return Err(TlvError::MaxPeers);
        }
    }
    if data.len() < 16 || data.len() >= 0x1000010 {
        return Err(TlvError::Unknown);
    }
    let ct = subrange_vec(data, 0, data.len() - 16);
    let tag = subrange_vec(data, data.len() - 16, data.len());
    let salt_label = ps_encrypt_salt();
    let info_label = ps_encrypt_info();
    let enc_key = derive_key(&shared_secret, &salt_label, &info_label, 32);
    let nonce = nonce_ps_msg05();
    assert(nonce@.len() == 12);
    let plaintext = match aead_open(&enc_key, &nonce, &ct, &tag) {
        None => {
            proof {
                assert(enc_key@ == spec_enc_key(ssx));
                assert(nonce@ == spec_nonce_ps_msg05());
                assert forall|p: Seq<u8>| !(#[trigger] spec_valid_seal(ssx, data@, p)) by {
                    if p.len() + 16 == data@.len() {
                        assert(ct@ + tag@ =~= data@);
                        assert(p.len() == ct@.len());
                    }
                }
            }
            return Err(TlvError::Authentication);
        },
        Some(p) => p,
    };
    assert(ct@ + tag@ =~= data@);
    assert(spec_valid_seal(shared_secret@, data@, plaintext@));
    let r = process_exchange_payload(device, store, events, &shared_secret, &plaintext);
    proof {
        assert(spec_valid_seal(ssx, data@, plaintext@));
        if exists|p0: Seq<u8>|
            #[trigger] spec_valid_seal(ssx, data@, p0) && spec_exchange_accepts(p0, ssx) {
            let p0 = choose|p0: Seq<u8>|
                #[trigger] spec_valid_seal(ssx, data@, p0) && spec_exchange_accepts(p0, ssx);
            assert(p0.len() == ct@.len());
            assert(ct@ + tag@ == aead_seal_of(enc_key@, nonce@, p0));
            assert(p0 == plaintext@);
            assert(spec_exchange_accepts(plaintext@, ssx));
        }
        if r is Ok {
            let c = r->Ok_0;
            assert(spec_exchange_post(
                ssx,
                plaintext@,
                *device,
                store0,
                store.pairings@,
                events0,
                events@,
                c@,
            ));
        }
    }
    r
}

/// Checks and persists a decrypted Exchange payload and builds the
/// accessory's encrypted reply: verifies the controller's signature over
/// `(controller-sign value || id || key)`, parses the identifier as a
/// UUID, saves the pairing with admin permission, emits the pairing
/// notification and seals the accessory's own identity.
pub fn process_exchange_payload(
    device: &Device,
    store: &mut PairingStore,
    events: &mut Vec<Event>,
    shared_secret: &Vec<u8>,
    plaintext: &Vec<u8>,
) -> (r: Result<Vec<Value>, TlvError>)
    requires
        device.wf(),
        old(store).wf(),
    ensures
        final(store).wf(),
        (spec_field(plaintext@, TYPE_IDENTIFIER) is None || spec_field(
            plaintext@,
            TYPE_PUBLIC_KEY,
        ) is None || spec_field(plaintext@, TYPE_SIGNATURE) is None) ==> r == Err::<
            Vec<Value>,
            TlvError,
        >(TlvError::Unknown),
        spec_field(plaintext@, TYPE_IDENTIFIER) matches Some(id) ==> (spec_field(
            plaintext@,
            TYPE_PUBLIC_KEY,
        ) matches Some(ltpk) ==> (spec_field(plaintext@, TYPE_SIGNATURE) matches Some(sig) ==> {
            &&& ((ltpk.len() != 32 || sig.len() != 64) ==> r == Err::<Vec<Value>, TlvError>(
                TlvError::Authentication,
            ))
            &&& ((ltpk.len() == 32 && sig.len() == 64 && !ed25519_verifies(
                spec_derive(
                    shared_secret@,
                    spec_ps_controller_sign_salt(),
                    spec_ps_controller_sign_info(),
                    32,
                ) + id + ltpk,
                ltpk,
                sig,
            )) ==> r == Err::<Vec<Value>, TlvError>(TlvError::Authentication))
            &&& ((ltpk.len() == 32 && sig.len() == 64 && ed25519_verifies(
                spec_derive(
                    shared_secret@,
                    spec_ps_controller_sign_salt(),
                    spec_ps_controller_sign_info(),
                    32,
                ) + id + ltpk,
                ltpk,
                sig,
            ) && uuid_parse_of(id) is None) ==> r == Err::<Vec<Value>, TlvError>(
                TlvError::Unknown,
            ))
        })),
        r is Err ==> final(store).pairings@ == old(store).pairings@ && final(events)@ == old(events)@,
        spec_exchange_accepts(plaintext@, shared_secret@) <==> r is Ok,
        r matches Ok(c) ==> spec_exchange_post(
            shared_secret@,
            plaintext@,
            *device,
            old(store).pairings@,
            final(store).pairings@,
            old(events)@,
            final(events)@,
            c@,
        ),
{
    let ghost store0 = store.pairings@;
    let items = match decode(plaintext) {
        Some(items) => items,
        None => {
            return Err(TlvError::Unknown);
        },
    };
    let device_pairing_id = match find_value(&items, TYPE_IDENTIFIER) {
        Some(v) => v,
        None => {
            return Err(TlvError::Unknown);
        },
    };
    let device_ltpk = match find_value(&items, TYPE_PUBLIC_KEY) {
        Some(v) => v,
        None => {
            return Err(TlvError::Unknown);
        },
    };
    let device_signature = match find_value(&items, TYPE_SIGNATURE) {
        Some(v) => v,
        None => {
            return Err(TlvError::Unknown);
        },
    };
    if device_ltpk.len() != 32 || device_signature.len() != 64 {
        return Err(TlvError::Authentication);
    }
    let cs_salt = ps_controller_sign_salt();
    let cs_info = ps_controller_sign_info();
    let device_x = derive_key(shared_secret, &cs_salt, &cs_info, 32);
    let device_info = concat3(&device_x, &device_pairing_id, &device_ltpk);
    if !ed25519_check(&device_info, &device_ltpk, &device_signature) {
        return Err(TlvError::Authentication);
    }
    let pairing_id = match uuid_parse(&device_pairing_id) {
        Some(v) => v,
        None => {
            return Err(TlvError::Unknown);
        },
    };
    let pairing = Pairing::new(pairing_id, Permissions::Admin, copy_bytes(&device_ltpk));
    let ghost pairing_snapshot = pairing;
    store.save_pairing(pairing);
    events.push(Event::DevicePaired);

    let as_salt = ps_accessory_sign_salt();
    let as_info = ps_accessory_sign_info();
    let accessory_x = derive_key(shared_secret, &as_salt, &as_info, 32);
    let accessory_info = concat3(&accessory_x, &device.id, &device.public_key);
    let accessory_signature = ed25519_sign(&accessory_info, &device.private_key);
    let sub_items: Vec<crate::tlv::TlvItem> = vec![
        crate::tlv::TlvItem { t: TYPE_IDENTIFIER, value: copy_bytes(&device.id) },
        crate::tlv::TlvItem { t: TYPE_PUBLIC_KEY, value: copy_bytes(&device.public_key) },
        crate::tlv::TlvItem { t: TYPE_SIGNATURE, value: accessory_signature },
    ];
    assert(crate::tlv::items_view(sub_items@) =~= seq![
        (TYPE_IDENTIFIER, device.id@),
        (TYPE_PUBLIC_KEY, device.public_key@),
        (
            TYPE_SIGNATURE,
            ed25519_sig_of(
                spec_derive(
                    shared_secret@,
                    spec_ps_accessory_sign_salt(),
                    spec_ps_accessory_sign_info(),
                    32,
                ) + device.id@ + device.public_key@,
                device.private_key@,
            ),
        ),
    ]);
    let encoded = crate::tlv::encode_items(&sub_items);
    proof {
        reveal_with_fuel(spec_encode_items, 5);
        let ghost iv = crate::tlv::items_view(sub_items@);
        lemma_encode_value_len(TYPE_IDENTIFIER, device.id@);
        lemma_encode_value_short(TYPE_PUBLIC_KEY, device.public_key@);
        lemma_encode_value_short(TYPE_SIGNATURE, iv[2].1);
        assert(iv.skip(1) =~= seq![iv[1], iv[2]]);
        assert(iv.skip(1).skip(1) =~= seq![iv[2]]);
        assert(iv.skip(1).skip(1).skip(1) =~= Seq::<(u8, Seq<u8>)>::empty());
        assert(spec_encode_items(iv) == spec_encode_value(iv[0].0, iv[0].1)
            + spec_encode_items(iv.skip(1)));
        assert(spec_encode_items(iv.skip(1)) == spec_encode_value(iv[1].0, iv[1].1)
            + spec_encode_items(iv.skip(1).skip(1)));
        assert(spec_encode_items(iv.skip(1).skip(1)) == spec_encode_value(iv[2].0, iv[2].1)
            + spec_encode_items(iv.skip(1).skip(1).skip(1)));
        assert(spec_encode_items(iv.skip(1).skip(1).skip(1)).len() == 0);
        assert(spec_encode_items(iv).len() <= 0x300000);
    }
    let salt_label = ps_encrypt_salt();
    let info_label = ps_encrypt_info();
    let enc_key = derive_key(shared_secret, &salt_label, &info_label, 32);
    let nonce = nonce_ps_msg06();
    assert(nonce@.len() == 12);
    let encrypted = aead_seal(&enc_key, &nonce, &encoded);
    let c: Vec<Value> = vec![
        Value::State(STATE_EXCHANGE_RES),
        Value::EncryptedData(encrypted),
    ];
    proof {
        assert(spec_saved(store0, store.pairings@, pairing_snapshot));
        assert(spec_exchange_saved(plaintext@, store0, store.pairings@));
    }
    Ok(c)
}

} // verus!
