//! The fixed byte-string labels of the two handshakes: SRP identity labels,
//! the six HKDF derivation labels, and the four AEAD nonces. Exact byte
//! values are part of wire interoperability and must not change.

use vstd::prelude::*;

verus! {

/// `"Pair-Setup"`: SRP username label of the Pair-Setup handshake.
pub open spec fn spec_pair_setup() -> Seq<u8> {
    seq![80u8, 97, 105, 114, 45, 83, 101, 116, 117, 112]
}

/// `"Pair-Setup"`: SRP username label of the Pair-Setup handshake.
pub fn pair_setup() -> (r: Vec<u8>)
    ensures
        r@ == spec_pair_setup(),
{
    let r: Vec<u8> = vec![80u8, 97, 105, 114, 45, 83, 101, 116, 117, 112];
    assert(r@ =~= spec_pair_setup());
    r
}

/// `"foo"`: fixed server identity label handed to the SRP server.
pub open spec fn spec_server_identity() -> Seq<u8> {
    seq![102u8, 111, 111]
}

/// `"foo"`: fixed server identity label handed to the SRP server.
pub fn server_identity() -> (r: Vec<u8>)
    ensures
        r@ == spec_server_identity(),
{
    let r: Vec<u8> = vec![102u8, 111, 111];
    assert(r@ =~= spec_server_identity());
    r
}

/// `"Pair-Setup-Encrypt-Salt"`: HKDF salt for the Pair-Setup encryption key.
pub open spec fn spec_ps_encrypt_salt() -> Seq<u8> {
    seq![80u8, 97, 105, 114, 45, 83, 101, 116, 117, 112, 45, 69, 110, 99, 114, 121, 112, 116, 45, 83, 97, 108, 116]
}

/// `"Pair-Setup-Encrypt-Salt"`: HKDF salt for the Pair-Setup encryption key.
pub fn ps_encrypt_salt() -> (r: Vec<u8>)
    ensures
        r@ == spec_ps_encrypt_salt(),
{
    let r: Vec<u8> = vec![80u8, 97, 105, 114, 45, 83, 101, 116, 117, 112, 45, 69, 110, 99, 114, 121, 112, 116, 45, 83, 97, 108, 116];
    assert(r@ =~= spec_ps_encrypt_salt());
    r
}

/// `"Pair-Setup-Encrypt-Info"`: HKDF info for the Pair-Setup encryption key.
pub open spec fn spec_ps_encrypt_info() -> Seq<u8> {
    seq![80u8, 97, 105, 114, 45, 83, 101, 116, 117, 112, 45, 69, 110, 99, 114, 121, 112, 116, 45, 73, 110, 102, 111]
}

/// `"Pair-Setup-Encrypt-Info"`: HKDF info for the Pair-Setup encryption key.
pub fn ps_encrypt_info() -> (r: Vec<u8>)
    ensures
        r@ == spec_ps_encrypt_info(),
{
    let r: Vec<u8> = vec![80u8, 97, 105, 114, 45, 83, 101, 116, 117, 112, 45, 69, 110, 99, 114, 121, 112, 116, 45, 73, 110, 102, 111];
    assert(r@ =~= spec_ps_encrypt_info());
    r
}

/// `"Pair-Setup-Controller-Sign-Salt"`: HKDF salt for the controller-sign value.
pub open spec fn spec_ps_controller_sign_salt() -> Seq<u8> {
    seq![80u8, 97, 105, 114, 45, 83, 101, 116, 117, 112, 45, 67, 111, 110, 116, 114, 111, 108, 108, 101, 114, 45, 83, 105, 103, 110, 45, 83, 97, 108, 116]
}

/// `"Pair-Setup-Controller-Sign-Salt"`: HKDF salt for the controller-sign value.
pub fn ps_controller_sign_salt() -> (r: Vec<u8>)
    ensures
        r@ == spec_ps_controller_sign_salt(),
{
    let r: Vec<u8> = vec![80u8, 97, 105, 114, 45, 83, 101, 116, 117, 112, 45, 67, 111, 110, 116, 114, 111, 108, 108, 101, 114, 45, 83, 105, 103, 110, 45, 83, 97, 108, 116];
    assert(r@ =~= spec_ps_controller_sign_salt());
    r
}

/// `"Pair-Setup-Controller-Sign-Info"`: HKDF info for the controller-sign value.
pub open spec fn spec_ps_controller_sign_info() -> Seq<u8> {
    seq![80u8, 97, 105, 114, 45, 83, 101, 116, 117, 112, 45, 67, 111, 110, 116, 114, 111, 108, 108, 101, 114, 45, 83, 105, 103, 110, 45, 73, 110, 102, 111]
}

/// `"Pair-Setup-Controller-Sign-Info"`: HKDF info for the controller-sign value.
pub fn ps_controller_sign_info() -> (r: Vec<u8>)
    ensures
        r@ == spec_ps_controller_sign_info(),
{
    let r: Vec<u8> = vec![80u8, 97, 105, 114, 45, 83, 101, 116, 117, 112, 45, 67, 111, 110, 116, 114, 111, 108, 108, 101, 114, 45, 83, 105, 103, 110, 45, 73, 110, 102, 111];
    assert(r@ =~= spec_ps_controller_sign_info());
    r
}

/// `"Pair-Setup-Accessory-Sign-Salt"`: HKDF salt for the accessory-sign value.
pub open spec fn spec_ps_accessory_sign_salt() -> Seq<u8> {
    seq![80u8, 97, 105, 114, 45, 83, 101, 116, 117, 112, 45, 65, 99, 99, 101, 115, 115, 111, 114, 121, 45, 83, 105, 103, 110, 45, 83, 97, 108, 116]
}

/// `"Pair-Setup-Accessory-Sign-Salt"`: HKDF salt for the accessory-sign value.
pub fn ps_accessory_sign_salt() -> (r: Vec<u8>)
    ensures
        r@ == spec_ps_accessory_sign_salt(),
{
    let r: Vec<u8> = vec![80u8, 97, 105, 114, 45, 83, 101, 116, 117, 112, 45, 65, 99, 99, 101, 115, 115, 111, 114, 121, 45, 83, 105, 103, 110, 45, 83, 97, 108, 116];
    assert(r@ =~= spec_ps_accessory_sign_salt());
    r
}

/// `"Pair-Setup-Accessory-Sign-Info"`: HKDF info for the accessory-sign value.
pub open spec fn spec_ps_accessory_sign_info() -> Seq<u8> {
    seq![80u8, 97, 105, 114, 45, 83, 101, 116, 117, 112, 45, 65, 99, 99, 101, 115, 115, 111, 114, 121, 45, 83, 105, 103, 110, 45, 73, 110, 102, 111]
}

/// `"Pair-Setup-Accessory-Sign-Info"`: HKDF info for the accessory-sign value.
pub fn ps_accessory_sign_info() -> (r: Vec<u8>)
    ensures
        r@ == spec_ps_accessory_sign_info(),
{
    let r: Vec<u8> = vec![80u8, 97, 105, 114, 45, 83, 101, 116, 117, 112, 45, 65, 99, 99, 101, 115, 115, 111, 114, 121, 45, 83, 105, 103, 110, 45, 73, 110, 102, 111];
    assert(r@ =~= spec_ps_accessory_sign_info());
    r
}

/// `"Pair-Verify-Encrypt-Salt"`: HKDF salt for the Pair-Verify session key.
pub open spec fn spec_pv_encrypt_salt() -> Seq<u8> {
    seq![80u8, 97, 105, 114, 45, 86, 101, 114, 105, 102, 121, 45, 69, 110, 99, 114, 121, 112, 116, 45, 83, 97, 108, 116]
}

/// `"Pair-Verify-Encrypt-Salt"`: HKDF salt for the Pair-Verify session key.
pub fn pv_encrypt_salt() -> (r: Vec<u8>)
    ensures
        r@ == spec_pv_encrypt_salt(),
{
    let r: Vec<u8> = vec![80u8, 97, 105, 114, 45, 86, 101, 114, 105, 102, 121, 45, 69, 110, 99, 114, 121, 112, 116, 45, 83, 97, 108, 116];
    assert(r@ =~= spec_pv_encrypt_salt());
    r
}

/// `"Pair-Verify-Encrypt-Info"`: HKDF info for the Pair-Verify session key.
pub open spec fn spec_pv_encrypt_info() -> Seq<u8> {
    seq![80u8, 97, 105, 114, 45, 86, 101, 114, 105, 102, 121, 45, 69, 110, 99, 114, 121, 112, 116, 45, 73, 110, 102, 111]
}

/// `"Pair-Verify-Encrypt-Info"`: HKDF info for the Pair-Verify session key.
pub fn pv_encrypt_info() -> (r: Vec<u8>)
    ensures
        r@ == spec_pv_encrypt_info(),
{
    let r: Vec<u8> = vec![80u8, 97, 105, 114, 45, 86, 101, 114, 105, 102, 121, 45, 69, 110, 99, 114, 121, 112, 116, 45, 73, 110, 102, 111];
    assert(r@ =~= spec_pv_encrypt_info());
    r
}

/// `"PS-Msg05"`: four zero bytes then the label; nonce of the incoming Pair-Setup Exchange payload.
pub open spec fn spec_nonce_ps_msg05() -> Seq<u8> {
    seq![0u8, 0, 0, 0, 80, 83, 45, 77, 115, 103, 48, 53]
}

/// `"PS-Msg05"`: four zero bytes then the label; nonce of the incoming Pair-Setup Exchange payload.
pub fn nonce_ps_msg05() -> (r: Vec<u8>)
    ensures
        r@ == spec_nonce_ps_msg05(),
{
    let r: Vec<u8> = vec![0u8, 0, 0, 0, 80, 83, 45, 77, 115, 103, 48, 53];
    assert(r@ =~= spec_nonce_ps_msg05());
    r
}

/// `"PS-Msg06"`: four zero bytes then the label; nonce of the outgoing Pair-Setup Exchange payload.
pub open spec fn spec_nonce_ps_msg06() -> Seq<u8> {
    seq![0u8, 0, 0, 0, 80, 83, 45, 77, 115, 103, 48, 54]
}

/// `"PS-Msg06"`: four zero bytes then the label; nonce of the outgoing Pair-Setup Exchange payload.
pub fn nonce_ps_msg06() -> (r: Vec<u8>)
    ensures
        r@ == spec_nonce_ps_msg06(),
{
    let r: Vec<u8> = vec![0u8, 0, 0, 0, 80, 83, 45, 77, 115, 103, 48, 54];
    assert(r@ =~= spec_nonce_ps_msg06());
    r
}

/// `"PV-Msg02"`: four zero bytes then the label; nonce of the outgoing Pair-Verify Start payload.
pub open spec fn spec_nonce_pv_msg02() -> Seq<u8> {
    seq![0u8, 0, 0, 0, 80, 86, 45, 77, 115, 103, 48, 50]
}

/// `"PV-Msg02"`: four zero bytes then the label; nonce of the outgoing Pair-Verify Start payload.
pub fn nonce_pv_msg02() -> (r: Vec<u8>)
    ensures
        r@ == spec_nonce_pv_msg02(),
{
    let r: Vec<u8> = vec![0u8, 0, 0, 0, 80, 86, 45, 77, 115, 103, 48, 50];
    assert(r@ =~= spec_nonce_pv_msg02());
    r
}

/// `"PV-Msg03"`: four zero bytes then the label; nonce of the incoming Pair-Verify Finish payload.
pub open spec fn spec_nonce_pv_msg03() -> Seq<u8> {
    seq![0u8, 0, 0, 0, 80, 86, 45, 77, 115, 103, 48, 51]
}

/// `"PV-Msg03"`: four zero bytes then the label; nonce of the incoming Pair-Verify Finish payload.
pub fn nonce_pv_msg03() -> (r: Vec<u8>)
    ensures
        r@ == spec_nonce_pv_msg03(),
{
    let r: Vec<u8> = vec![0u8, 0, 0, 0, 80, 86, 45, 77, 115, 103, 48, 51];
    assert(r@ =~= spec_nonce_pv_msg03());
    r
}

} // verus!
