//! The Pair-Verify state machine: the four-message ECDH-based session
//! resume flow. Start derives a fresh Curve25519 shared secret and proves
//! the accessory's identity; Finish authenticates the returning
//! controller against its stored pairing and hands the completed
//! transport session off exactly once.

use vstd::prelude::*;

use crate::bytes::{concat3, copy_bytes, subrange_vec};
use crate::crypto::{
    aead_open, aead_seal, aead_seal_of, curve25519_base_of, curve25519_base_point,
    curve25519_dh, curve25519_of, ed25519_check, ed25519_sig_of, ed25519_sign,
    ed25519_verifies, random_bytes, uuid_parse, uuid_parse_of,
};
use crate::error::{ErrorContainer, TlvError};
use crate::kdf::{derive_key, spec_derive};
use crate::labels::{
    nonce_pv_msg02, nonce_pv_msg03, pv_encrypt_info, pv_encrypt_salt, spec_nonce_pv_msg02,
    spec_nonce_pv_msg03, spec_pv_encrypt_info, spec_pv_encrypt_salt,
};
use crate::pair_setup::spec_field;
use crate::store::{
    lemma_find_index_in_range, spec_find_index, Device, Pairing, PairingStore,
    TransportSession,
};
use crate::tlv::{
    decode, find_value, lemma_encode_value_len, lemma_encode_value_short, spec_encode_items,
    spec_encode_value, Value,
    TYPE_ENCRYPTED_DATA, TYPE_IDENTIFIER, TYPE_PUBLIC_KEY, TYPE_SIGNATURE, TYPE_STATE,
};

verus! {

/// Response state code of the Start step.
pub const PV_STATE_START_RES: u8 = 2;

/// Response state code of the Finish step.
pub const PV_STATE_FINISH_RES: u8 = 4;

/// One Pair-Verify handshake attempt's state, created by Start.
pub struct Session {
    /// The accessory's ephemeral Curve25519 public value.
    pub b_pub: Vec<u8>,
    /// The controller's ephemeral Curve25519 public value.
    pub a_pub: Vec<u8>,
    /// The raw 32-byte ECDH shared secret.
    pub shared_secret: Vec<u8>,
    /// The derived 32-byte symmetric session key.
    pub session_key: Vec<u8>,
}

/// The Pair-Verify handler: the current session, if any, and whether the
/// one-shot transport hand-off is still available.
pub struct PairVerify {
    /// The current handshake attempt, if a Start step created one.
    pub session: Option<Session>,
    /// True until the one-shot transport hand-off has been consumed.
    pub handoff_available: bool,
}

impl PairVerify {
    /// The session's values, when one exists, have the ECDH lengths.
    pub open spec fn wf(&self) -> bool {
        self.session matches Some(s) ==> s.b_pub@.len() == 32 && s.a_pub@.len() == 32
            && s.shared_secret@.len() == 32 && s.session_key@.len() == 32
    }

    /// A fresh handler: no session, the hand-off still available.
    pub fn new() -> (r: PairVerify)
        ensures
            r.session is None,
            r.handoff_available,
            r.wf(),
    {
        PairVerify { session: None, handoff_available: true }
    }
}

/// A parsed Pair-Verify request.
#[derive(Debug)]
pub enum Step {
    /// Message 1: the controller's ephemeral public value.
    Start {
        /// The controller's Curve25519 public value.
        a_pub: Vec<u8>,
    },
    /// Message 3: the encrypted finish payload.
    Finish {
        /// Ciphertext with its trailing 16-byte tag.
        data: Vec<u8>,
    },
}

/// The state code the client expects in the reply to a step.
pub open spec fn spec_pv_response_state(step: Step) -> u8 {
    match step {
        Step::Start { .. } => PV_STATE_START_RES,
        Step::Finish { .. } => PV_STATE_FINISH_RES,
    }
}

/// The derived symmetric session key of a raw shared secret.
pub open spec fn spec_pv_session_key(ss: Seq<u8>) -> Seq<u8> {
    spec_derive(ss, spec_pv_encrypt_salt(), spec_pv_encrypt_info(), 32)
}

/// The accessory's Start reply plaintext: its identifier and its
/// signature over `(server public || accessory id || controller public)`.
pub open spec fn spec_pv_start_plain(device: Device, b_pub: Seq<u8>, a_pub: Seq<u8>) -> Seq<
    u8,
> {
    spec_encode_items(
        seq![
            (TYPE_IDENTIFIER, device.id@),
            (
                TYPE_SIGNATURE,
                ed25519_sig_of(b_pub + device.id@ + a_pub, device.private_key@),
            ),
        ],
    )
}

/// What a successful Start step leaves behind: a session built from a
/// fresh 32-byte scalar, and the reply carrying state code 2, the server
/// public value and the sealed identity proof.
pub open spec fn spec_pv_start_post(
    device: Device,
    a_pub: Seq<u8>,
    sess: Option<Session>,
    c: Seq<Value>,
) -> bool {
    sess matches Some(t) && {
        &&& (exists|b: Seq<u8>|
            b.len() == 32 && t.b_pub@ == #[trigger] curve25519_base_of(b) && t.shared_secret@
                == curve25519_of(b, a_pub))
        &&& t.a_pub@ == a_pub
        &&& t.session_key@ == spec_pv_session_key(t.shared_secret@)
        &&& c.len() == 3
        &&& c[0] == Value::State(PV_STATE_START_RES)
        &&& (c[1] matches Value::PublicKey(k) && k@ == t.b_pub@)
        &&& (c[2] matches Value::EncryptedData(e) && e@ == aead_seal_of(
            t.session_key@,
            spec_nonce_pv_msg02(),
            spec_pv_start_plain(device, t.b_pub@, a_pub),
        ))
    }
}

/// Whether `p` is the plaintext the Finish envelope carries.
pub open spec fn spec_pv_valid_seal(key: Seq<u8>, data: Seq<u8>, p: Seq<u8>) -> bool {
    p.len() + 16 == data.len() && data == aead_seal_of(key, spec_nonce_pv_msg03(), p)
}

/// Whether a decrypted Finish payload authenticates against the store:
/// identifier and signature present, the signature 64 bytes, the
/// identifier a well-formed UUID with a stored pairing, and the Ed25519
/// signature over `(controller public || id || server public)` valid
/// under the pairing's stored key.
pub open spec fn spec_finish_accepts(
    p: Seq<u8>,
    a_pub: Seq<u8>,
    b_pub: Seq<u8>,
    store: Seq<Pairing>,
) -> bool {
    spec_field(p, TYPE_IDENTIFIER) matches Some(id) && (spec_field(
        p,
        TYPE_SIGNATURE,
    ) matches Some(sig) && {
        &&& sig.len() == 64
        &&& (uuid_parse_of(id) matches Some(pid) && (spec_find_index(store, pid) matches Some(
            i,
        ) && ed25519_verifies(a_pub + id + b_pub, store[i].public_key@, sig)))
    })
}

impl PairVerify {
    /// Parses a request body: reads the state code and, per step, the
    /// field that step requires; a missing field or an unknown state
    /// code is an "unknown" error tagged with the state code the client
    /// expects for that step's reply.
    pub fn parse(&self, body: Vec<u8>) -> (r: Result<Step, ErrorContainer>)
        ensures
            (spec_field(body@, TYPE_STATE) is None || spec_field(
                body@,
                TYPE_STATE,
            ).unwrap().len() == 0) ==> r == Err::<Step, ErrorContainer>(
                ErrorContainer { state: 0, error: TlvError::Unknown },
            ),
            spec_field(body@, TYPE_STATE) matches Some(st) ==> (st.len() > 0 ==> {
                &&& (st[0] == 1 ==> (match spec_field(body@, TYPE_PUBLIC_KEY) {
                    Some(pk) => (r matches Ok(Step::Start { a_pub }) && a_pub@ == pk),
                    None => r == Err::<Step, ErrorContainer>(
                        ErrorContainer { state: PV_STATE_START_RES, error: TlvError::Unknown },
                    ),
                }))
                &&& (st[0] == 3 ==> (match spec_field(body@, TYPE_ENCRYPTED_DATA) {
                    Some(d) => (r matches Ok(Step::Finish { data }) && data@ == d),
                    None => r == Err::<Step, ErrorContainer>(
                        ErrorContainer { state: PV_STATE_FINISH_RES, error: TlvError::Unknown },
                    ),
                }))
                &&& ((st[0] != 1 && st[0] != 3) ==> r == Err::<Step, ErrorContainer>(
                    ErrorContainer { state: 0, error: TlvError::Unknown },
                ))
            }),
    {
        let items = match decode(&body) {
            Some(items) => items,
            None => {
                return Err(ErrorContainer::new(0, TlvError::Unknown));
            },
        };
        let st = match find_value(&items, TYPE_STATE) {
            Some(st) => st,
            None => {
                return Err(ErrorContainer::new(0, TlvError::Unknown));
            },
        };
        if st.len() == 0 {
            return Err(ErrorContainer::new(0, TlvError::Unknown));
        }
        if st[0] == 1 {
            let a_pub = match find_value(&items, TYPE_PUBLIC_KEY) {
                Some(v) => v,
                None => {
                    return Err(ErrorContainer::new(PV_STATE_START_RES, TlvError::Unknown));
                },
            };
            Ok(Step::Start { a_pub })
        } else if st[0] == 3 {
            let data = match find_value(&items, TYPE_ENCRYPTED_DATA) {
                Some(v) => v,
                None => {
                    return Err(ErrorContainer::new(PV_STATE_FINISH_RES, TlvError::Unknown));
                },
            };
            Ok(Step::Finish { data })
        } else {
            Err(ErrorContainer::new(0, TlvError::Unknown))
        }
    }

    /// Executes one parsed step, tagging every error with the state code
    /// the client expects for that reply. A successful Finish returns the
    /// completed transport session beside the reply, exactly once.
    pub fn handle(&mut self, step: Step, device: &Device, store: &PairingStore) -> (r: Result<
        (Vec<Value>, Option<TransportSession>),
        ErrorContainer,
    >)
        requires
            device.wf(),
            store.wf(),
            old(self).wf(),
        ensures
            final(self).wf(),
            r matches Err(ec) ==> ec.state == spec_pv_response_state(step),
            r is Err ==> final(self).session == old(self).session
                && final(self).handoff_available == old(self).handoff_available,
            step matches Step::Start { a_pub } ==> {
                &&& (a_pub@.len() != 32 ==> (r matches Err(ec) && ec.error
                    == TlvError::Unknown))
                &&& (a_pub@.len() == 32 ==> r is Ok)
                &&& (r matches Ok(pr) ==> (pr.1 is None && spec_pv_start_post(
                    *device,
                    a_pub@,
                    final(self).session,
                    pr.0@,
                ) && final(self).handoff_available == old(self).handoff_available))
            },
            step matches Step::Finish { data } ==> {
                &&& (old(self).session is None ==> (r matches Err(ec) && ec.error
                    == TlvError::Unknown))
                &&& (!old(self).handoff_available ==> r is Err)
                &&& (r is Ok ==> old(self).handoff_available && !final(self).handoff_available)
                &&& (old(self).session matches Some(s) ==> ((old(self).handoff_available
                    && 16 <= data@.len() < 0x1000010 && (exists|p: Seq<u8>|
                    #[trigger] spec_pv_valid_seal(s.session_key@, data@, p)
                        && spec_finish_accepts(p, s.a_pub@, s.b_pub@, store.pairings@)))
                    ==> r is Ok))
                &&& (old(self).session matches Some(s) ==> ((!old(self).handoff_available
                    && 16 <= data@.len() < 0x1000010 && (exists|p: Seq<u8>|
                    #[trigger] spec_pv_valid_seal(s.session_key@, data@, p)
                        && spec_finish_accepts(p, s.a_pub@, s.b_pub@, store.pairings@)))
                    ==> (r matches Err(ec) && ec.error == TlvError::Unknown)))
                &&& (old(self).session matches Some(s) ==> (r matches Ok(pr) ==> {
                    &&& final(self).session == old(self).session
                    &&& (pr.1 matches Some(ts) && ts.shared_secret@ == s.shared_secret@
                        && exists|p: Seq<u8>|
                        #[trigger] spec_pv_valid_seal(s.session_key@, data@, p)
                            && spec_finish_accepts(p, s.a_pub@, s.b_pub@, store.pairings@) && (
                        spec_field(p, TYPE_IDENTIFIER) matches Some(id) && uuid_parse_of(id)
                            == Some(ts.controller_id@)))
                    &&& pr.0@.len() == 1
                    &&& pr.0@[0] == Value::State(PV_STATE_FINISH_RES)
                }))
            },
    {
        match step {
            Step::Start { a_pub } => match handle_start(self, device, &a_pub) {
                Ok(res) => Ok((res, None)),
                Err(err) => Err(ErrorContainer::new(PV_STATE_START_RES, err)),
            },
            Step::Finish { data } => match handle_finish(self, store, &data) {
                Ok((res, ts)) => Ok((res, Some(ts))),
                Err(err) => Err(ErrorContainer::new(PV_STATE_FINISH_RES, err)),
            },
        }
    }
}

/// Start: draws a fresh Curve25519 scalar, computes the shared secret
/// against the controller's public value, signs the accessory's identity,
/// derives the session key and seals the identity proof.
pub fn handle_start(handler: &mut PairVerify, device: &Device, a_pub: &Vec<u8>) -> (r: Result<
    Vec<Value>,
    TlvError,
>)
    requires
        device.wf(),
        old(handler).wf(),
    ensures
        final(handler).wf(),
        final(handler).handoff_available == old(handler).handoff_available,
        a_pub@.len() != 32 ==> r == Err::<Vec<Value>, TlvError>(TlvError::Unknown) && final(handler).session == old(handler).session,
        a_pub@.len() == 32 ==> r is Ok,
        r matches Ok(c) ==> spec_pv_start_post(*device, a_pub@, final(handler).session, c@),
        r is Err ==> final(handler).session == old(handler).session,
{
    if a_pub.len() != 32 {
        return Err(TlvError::Unknown);
    }
    let b = random_bytes(32);
    let b_pub = curve25519_base_point(&b);
    let shared_secret = curve25519_dh(&b, a_pub);

    let accessory_info = concat3(&b_pub, &device.id, a_pub);
    let accessory_signature = ed25519_sign(&accessory_info, &device.private_key);
    let sub_items: Vec<crate::tlv::TlvItem> = vec![
        crate::tlv::TlvItem { t: TYPE_IDENTIFIER, value: copy_bytes(&device.id) },
        crate::tlv::TlvItem { t: TYPE_SIGNATURE, value: accessory_signature },
    ];
    assert(crate::tlv::items_view(sub_items@) =~= seq![
        (TYPE_IDENTIFIER, device.id@),
        (
            TYPE_SIGNATURE,
            ed25519_sig_of(b_pub@ + device.id@ + a_pub@, device.private_key@),
        ),
    ]);
    let encoded = crate::tlv::encode_items(&sub_items);
    proof {
        reveal_with_fuel(spec_encode_items, 4);
        let ghost iv = crate::tlv::items_view(sub_items@);
        lemma_encode_value_len(TYPE_IDENTIFIER, device.id@);
        lemma_encode_value_short(TYPE_SIGNATURE, iv[1].1);
        assert(iv.skip(1) =~= seq![iv[1]]);
        assert(iv.skip(1).skip(1) =~= Seq::<(u8, Seq<u8>)>::empty());
        assert(spec_encode_items(iv) == spec_encode_value(iv[0].0, iv[0].1)
            + spec_encode_items(iv.skip(1)));
        assert(spec_encode_items(iv.skip(1)) == spec_encode_value(iv[1].0, iv[1].1)
            + spec_encode_items(iv.skip(1).skip(1)));
        assert(spec_encode_items(iv).len() <= 0x300000);
    }
    let salt_label = pv_encrypt_salt();
    let info_label = pv_encrypt_info();
    let session_key = derive_key(&shared_secret, &salt_label, &info_label, 32);
    let nonce = nonce_pv_msg02();
    assert(nonce@.len() == 12);
    let encrypted = aead_seal(&session_key, &nonce, &encoded);

    let reply_pub = copy_bytes(&b_pub);
    handler.session = Some(
        Session {
            b_pub,
            a_pub: copy_bytes(a_pub),
            shared_secret,
            session_key,
        },
    );
    let c: Vec<Value> = vec![
        Value::State(PV_STATE_START_RES),
        Value::PublicKey(reply_pub),
        Value::EncryptedData(encrypted),
    ];
    Ok(c)
}

/// Checks a decrypted Finish payload against the pairing store: parses
/// the identifier, loads its pairing, verifies the controller's
/// signature over `(controller public || id || server public)` under the
/// stored key, and returns the controller's 16 identifier bytes.
pub fn process_finish_payload(
    store: &PairingStore,
    a_pub: &Vec<u8>,
    b_pub: &Vec<u8>,
    plaintext: &Vec<u8>,
) -> (r: Result<Vec<u8>, TlvError>)
    requires
        store.wf(),
    ensures
        (spec_field(plaintext@, TYPE_IDENTIFIER) is None || spec_field(
            plaintext@,
            TYPE_SIGNATURE,
        ) is None) ==> r == Err::<Vec<u8>, TlvError>(TlvError::Unknown),
        spec_field(plaintext@, TYPE_IDENTIFIER) matches Some(id) ==> (spec_field(
            plaintext@,
            TYPE_SIGNATURE,
        ) matches Some(sig) ==> {
            &&& (sig.len() != 64 ==> r == Err::<Vec<u8>, TlvError>(TlvError::Authentication))
            &&& ((sig.len() == 64 && uuid_parse_of(id) is None) ==> r == Err::<
                Vec<u8>,
                TlvError,
            >(TlvError::Unknown))
            &&& (uuid_parse_of(id) matches Some(pid) ==> (sig.len() == 64 ==> {
                &&& (spec_find_index(store.pairings@, pid) is None ==> r == Err::<
                    Vec<u8>,
                    TlvError,
                >(TlvError::Unknown))
                &&& (spec_find_index(store.pairings@, pid) matches Some(i) ==> {
                    &&& (!ed25519_verifies(
                        a_pub@ + id + b_pub@,
                        store.pairings@[i].public_key@,
                        sig,
                    ) ==> r == Err::<Vec<u8>, TlvError>(TlvError::Authentication))
                    &&& (ed25519_verifies(
                        a_pub@ + id + b_pub@,
                        store.pairings@[i].public_key@,
                        sig,
                    ) ==> (r matches Ok(cid) && cid@ == pid))
                })
            }))
        }),
        spec_finish_accepts(plaintext@, a_pub@, b_pub@, store.pairings@) <==> r is Ok,
{
    let items = match decode(plaintext) {
        Some(items) => items,
        None => {
            return Err(TlvError::Unknown);
        },
    };
    let device_pairing_id = match find_value(&items, TYPE_IDENTIFIER) {
        Some(v) => v,
        None => {
            return Err(TlvError::Unknown);
        },
    };
    let device_signature = match find_value(&items, TYPE_SIGNATURE) {
        Some(v) => v,
        None => {
            return Err(TlvError::Unknown);
        },
    };
    if device_signature.len() != 64 {
        return Err(TlvError::Authentication);
    }
    let pairing_id = match uuid_parse(&device_pairing_id) {
        Some(v) => v,
        None => {
            return Err(TlvError::Unknown);
        },
    };
    let pairing = match store.load_pairing(&pairing_id) {
        Some(p) => p,
        None => {
            return Err(TlvError::Unknown);
        },
    };
    proof {
        lemma_find_index_in_range(store.pairings@, pairing_id@);
    }
    assert(pairing.public_key@.len() == 32);
    let device_info = concat3(a_pub, &device_pairing_id, b_pub);
    if !ed25519_check(&device_info, &pairing.public_key, &device_signature) {
        return Err(TlvError::Authentication);
    }
    Ok(pairing_id)
}

/// Finish: opens the encrypted finish payload with the stored session
/// key, authenticates the controller against its stored pairing, and
/// consumes the one-shot hand-off, returning the completed transport
/// session with the raw shared secret.
pub fn handle_finish(handler: &mut PairVerify, store: &PairingStore, data: &Vec<u8>) -> (r:
    Result<(Vec<Value>, TransportSession), TlvError>)
    requires
        store.wf(),
        old(handler).wf(),
    ensures
        final(handler).wf(),
        final(handler).session == old(handler).session,
        old(handler).session is None ==> r == Err::<(Vec<Value>, TransportSession), TlvError>(
            TlvError::Unknown,
        ),
        !old(handler).handoff_available ==> r is Err,
        r is Err ==> final(handler).handoff_available == old(handler).handoff_available,
        r is Ok ==> old(handler).handoff_available && !final(handler).handoff_available,
        old(handler).session matches Some(s) ==> {
            &&& ((data@.len() < 16 || data@.len() >= 0x1000010) ==> r == Err::<
                (Vec<Value>, TransportSession),
                TlvError,
            >(TlvError::Unknown))
            &&& ((16 <= data@.len() < 0x1000010 && !(exists|p: Seq<u8>|
                #[trigger] spec_pv_valid_seal(s.session_key@, data@, p))) ==> r == Err::<
                (Vec<Value>, TransportSession),
                TlvError,
            >(TlvError::Authentication))
            &&& ((old(handler).handoff_available && 16 <= data@.len() < 0x1000010 && (exists|
                p: Seq<u8>,
            |
                #[trigger] spec_pv_valid_seal(s.session_key@, data@, p)
                    && spec_finish_accepts(p, s.a_pub@, s.b_pub@, store.pairings@))) ==> r
                is Ok)
            &&& ((!old(handler).handoff_available && 16 <= data@.len() < 0x1000010 && (exists|
                p: Seq<u8>,
            |
                #[trigger] spec_pv_valid_seal(s.session_key@, data@, p)
                    && spec_finish_accepts(p, s.a_pub@, s.b_pub@, store.pairings@))) ==> r
                == Err::<(Vec<Value>, TransportSession), TlvError>(TlvError::Unknown))
            &&& (r matches Ok(pr) ==> ((pr.1.shared_secret@ == s.shared_secret@) && exists|
                p: Seq<u8>,
            |
                #[trigger] spec_pv_valid_seal(s.session_key@, data@, p)
                    && spec_finish_accepts(p, s.a_pub@, s.b_pub@, store.pairings@) && (
                spec_field(p, TYPE_IDENTIFIER) matches Some(id) && uuid_parse_of(id) == Some(
                    pr.1.controller_id@,
                )) && pr.0@.len() == 1 && pr.0@[0] == Value::State(PV_STATE_FINISH_RES)))
        },
{
    let (a_pub, b_pub, shared_secret, session_key) = match &handler.session {
        None => {
            return Err(TlvError::Unknown);
        },
        Some(s) => (
            copy_bytes(&s.a_pub),
            copy_bytes(&s.b_pub),
            copy_bytes(&s.shared_secret),
            copy_bytes(&s.session_key),
        ),
    };
    let ghost skx = old(handler).session->Some_0.session_key@;
    let ghost apx = old(handler).session->Some_0.a_pub@;
    let ghost bpx = old(handler).session->Some_0.b_pub@;
    assert(skx == session_key@);
    assert(apx == a_pub@);
    assert(bpx == b_pub@);
    if data.len() < 16 || data.len() >= 0x1000010 {
        return Err(TlvError::Unknown);
    }
    let ct = subrange_vec(data, 0, data.len() - 16);
    let tag = subrange_vec(data, data.len() - 16, data.len());
    let nonce = nonce_pv_msg03();
    assert(nonce@.len() == 12);
    let plaintext = match aead_open(&session_key, &nonce, &ct, &tag) {
        None => {
            proof {
                assert forall|p: Seq<u8>| !(#[trigger] spec_pv_valid_seal(skx, data@, p)) by {
                    if p.len() + 16 == data@.len() {
                        assert(ct@ + tag@ =~= data@);
                        assert(p.len() == ct@.len());
                    }
                }
            }
            return Err(TlvError::Authentication);
        },
        Some(p) => p,
    };
    assert(ct@ + tag@ =~= data@);
    assert(spec_pv_valid_seal(skx, data@, plaintext@));
    proof {
        if exists|p0: Seq<u8>|
            #[trigger] spec_pv_valid_seal(skx, data@, p0) && spec_finish_accepts(
                p0,
                apx,
                bpx,
                store.pairings@,
            ) {
            let p0 = choose|p0: Seq<u8>|
                #[trigger] spec_pv_valid_seal(skx, data@, p0) && spec_finish_accepts(
                    p0,
                    apx,
                    bpx,
                    store.pairings@,
                );
            assert(p0.len() == ct@.len());
            assert(ct@ + tag@ == aead_seal_of(session_key@, nonce@, p0));
            assert(p0 == plaintext@);
            assert(spec_finish_accepts(plaintext@, apx, bpx, store.pairings@));
        }
    }
    let controller_id = match process_finish_payload(store, &a_pub, &b_pub, &plaintext) {
        Ok(cid) => cid,
        Err(e) => {
            return Err(e);
        },
    };
    if !handler.handoff_available {
        return Err(TlvError::Unknown);
    }
    handler.handoff_available = false;
    let ts = TransportSession { controller_id, shared_secret };
    let c: Vec<Value> = vec![Value::State(PV_STATE_FINISH_RES)];
    Ok((c, ts))
}

} // verus!
