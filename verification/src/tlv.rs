//! Verified TLV8 codec: typed-length-value records with one-byte type and
//! one-byte length. A value longer than 255 bytes is split into fragments;
//! a fragment of length 255 followed by a record of the same type is read
//! back as one concatenated value.

use vstd::prelude::*;

use crate::bytes::{append_bytes, concat2, copy_bytes, subrange_vec};

verus! {

/// Wire type code of a pairing identifier.
pub const TYPE_IDENTIFIER: u8 = 1;

/// Wire type code of an SRP salt.
pub const TYPE_SALT: u8 = 2;

/// Wire type code of a public key or ephemeral public value.
pub const TYPE_PUBLIC_KEY: u8 = 3;

/// Wire type code of an SRP proof.
pub const TYPE_PROOF: u8 = 4;

/// Wire type code of an encrypted payload (ciphertext with trailing tag).
pub const TYPE_ENCRYPTED_DATA: u8 = 5;

/// Wire type code of a handshake state code.
pub const TYPE_STATE: u8 = 6;

/// Wire type code of an error code.
pub const TYPE_ERROR: u8 = 7;

/// Wire type code of an Ed25519 signature.
pub const TYPE_SIGNATURE: u8 = 10;

/// One decoded TLV item: a type code and its (possibly rejoined) value.
#[derive(Debug)]
pub struct TlvItem {
    /// The type code.
    pub t: u8,
    /// The value bytes.
    pub value: Vec<u8>,
}

/// The mathematical shape of a decoded item sequence.
pub open spec fn items_view(s: Seq<TlvItem>) -> Seq<(u8, Seq<u8>)> {
    s.map(|i: int, x: TlvItem| (x.t, x.value@))
}

/// Raw records of a byte stream: `None` when a record header is truncated
/// or a value runs past the end of the stream.
pub open spec fn spec_records(b: Seq<u8>) -> Option<Seq<(u8, Seq<u8>)>>
    decreases b.len(),
{
    if b.len() == 0 {
        Some(Seq::empty())
    } else if b.len() < 2 {
        None
    } else {
        let l = b[1] as int;
        if b.len() < 2 + l {
            None
        } else {
            match spec_records(b.skip(2 + l)) {
                Some(rest) => Some(seq![(b[0], b.subrange(2, 2 + l))] + rest),
                None => None,
            }
        }
    }
}

/// Rejoins fragmented records: a record whose value is exactly 255 bytes
/// long is concatenated with the following record of the same type.
pub open spec fn spec_join(rs: Seq<(u8, Seq<u8>)>) -> Seq<(u8, Seq<u8>)>
    decreases rs.len(),
{
    if rs.len() == 0 {
        Seq::empty()
    } else {
        let rest = spec_join(rs.skip(1));
        if rs[0].1.len() == 255 && rest.len() > 0 && rest[0].0 == rs[0].0 {
            seq![(rs[0].0, rs[0].1 + rest[0].1)] + rest.skip(1)
        } else {
            seq![rs[0]] + rest
        }
    }
}

/// Full decoding: raw records, then fragment rejoining.
pub open spec fn spec_decode(b: Seq<u8>) -> Option<Seq<(u8, Seq<u8>)>> {
    match spec_records(b) {
        Some(rs) => Some(spec_join(rs)),
        None => None,
    }
}

/// The first value of the given type among decoded items.
pub open spec fn spec_find(items: Seq<(u8, Seq<u8>)>, t: u8) -> Option<Seq<u8>>
    decreases items.len(),
{
    if items.len() == 0 {
        None
    } else if items[0].0 == t {
        Some(items[0].1)
    } else {
        spec_find(items.skip(1), t)
    }
}

/// Encoding of one typed value, splitting values over 255 bytes into
/// 255-byte fragments of the same type.
pub open spec fn spec_encode_value(t: u8, v: Seq<u8>) -> Seq<u8>
    decreases v.len(),
{
    if v.len() <= 255 {
        seq![t, v.len() as u8] + v
    } else {
        seq![t, 255u8] + v.take(255) + spec_encode_value(t, v.skip(255))
    }
}

/// Encoding of a sequence of typed values, in order.
pub open spec fn spec_encode_items(items: Seq<(u8, Seq<u8>)>) -> Seq<u8>
    decreases items.len(),
{
    if items.len() == 0 {
        Seq::empty()
    } else {
        spec_encode_value(items[0].0, items[0].1) + spec_encode_items(items.skip(1))
    }
}

fn decode_records(b: &Vec<u8>, pos: usize) -> (r: Option<Vec<TlvItem>>)
    requires
        pos <= b@.len(),
    ensures
        match r {
            Some(items) => spec_records(b@.skip(pos as int)) == Some(items_view(items@)),
            None => spec_records(b@.skip(pos as int)) is None,
        },
    decreases b@.len() - pos,
{
    let n = b.len();
    if pos == n {
        let r: Vec<TlvItem> = Vec::new();
        assert(items_view(r@) =~= Seq::<(u8, Seq<u8>)>::empty());
        assert(b@.skip(pos as int).len() == 0);
        return Some(r);
    }
    if n - pos < 2 {
        return None;
    }
    let t = b[pos];
    let l = b[pos + 1] as usize;
    assert(b@.skip(pos as int)[0] == b@[pos as int]);
    assert(b@.skip(pos as int)[1] == b@[pos as int + 1]);
    if l > n - pos - 2 {
        return None;
    }
    let value = subrange_vec(b, pos + 2, pos + 2 + l);
    assert(b@.skip(pos as int).subrange(2, 2 + l as int) =~= b@.subrange(
        pos as int + 2,
        pos as int + 2 + l as int,
    ));
    assert(b@.skip(pos as int).skip(2 + l as int) =~= b@.skip(pos as int + 2 + l as int));
    match decode_records(b, pos + 2 + l) {
        Some(mut rest) => {
            let item = TlvItem { t, value };
            rest.insert(0, item);
            assert(items_view(rest@) =~= seq![(t, b@.skip(pos as int).subrange(2, 2 + l as int))]
                + items_view(rest@.skip(1)));
            Some(rest)
        },
        None => None,
    }
}

fn join_records(items: &Vec<TlvItem>, pos: usize) -> (r: Vec<TlvItem>)
    requires
        pos <= items@.len(),
    ensures
        items_view(r@) == spec_join(items_view(items@).skip(pos as int)),
    decreases items@.len() - pos,
{
    if pos == items.len() {
        let r: Vec<TlvItem> = Vec::new();
        assert(items_view(r@) =~= Seq::<(u8, Seq<u8>)>::empty());
        assert(items_view(items@).skip(pos as int).len() == 0);
        return r;
    }
    let mut rest = join_records(items, pos + 1);
    assert(items_view(items@).skip(pos as int).skip(1) =~= items_view(items@).skip(pos as int + 1));
    let ghost rs = items_view(items@).skip(pos as int);
    assert(rs[0] == items_view(items@)[pos as int]);
    let t = items[pos].t;
    let value = copy_bytes(&items[pos].value);
    if value.len() == 255 && rest.len() > 0 && rest[0].t == t {
        assert(items_view(rest@)[0] == (rest@[0].t, rest@[0].value@));
        let merged = concat2(&value, &rest[0].value);
        let _ = rest.remove(0);
        rest.insert(0, TlvItem { t, value: merged });
        assert(items_view(rest@) =~= seq![(rs[0].0, rs[0].1 + spec_join(rs.skip(1))[0].1)]
            + spec_join(rs.skip(1)).skip(1));
        rest
    } else {
        rest.insert(0, TlvItem { t, value });
        assert(items_view(rest@) =~= seq![rs[0]] + spec_join(rs.skip(1)));
        rest
    }
}

/// Decodes a byte stream into its TLV items, rejoining fragments; `None`
/// on a truncated record.
pub fn decode(body: &Vec<u8>) -> (r: Option<Vec<TlvItem>>)
    ensures
        match r {
            Some(items) => spec_decode(body@) == Some(items_view(items@)),
            None => spec_decode(body@) is None,
        },
{
    assert(body@.skip(0) =~= body@);
    match decode_records(body, 0) {
        Some(raw) => {
            let joined = join_records(&raw, 0);
            assert(items_view(raw@).skip(0) =~= items_view(raw@));
            Some(joined)
        },
        None => None,
    }
}

/// The first value of the given type among decoded items, copied out.
pub fn find_value(items: &Vec<TlvItem>, t: u8) -> (r: Option<Vec<u8>>)
    ensures
        match r {
            Some(v) => spec_find(items_view(items@), t) == Some(v@),
            None => spec_find(items_view(items@), t) is None,
        },
{
    let mut i: usize = 0;
    assert(items_view(items@).skip(0) =~= items_view(items@));
    while i < items.len()
        invariant
            0 <= i <= items@.len(),
            spec_find(items_view(items@), t) == spec_find(
                items_view(items@).skip(i as int),
                t,
            ),
        decreases items@.len() - i,
    {
        let ghost s = items_view(items@).skip(i as int);
        assert(s[0] == items_view(items@)[i as int]);
        if items[i].t == t {
            return Some(copy_bytes(&items[i].value));
        }
        assert(items_view(items@).skip(i as int).skip(1) =~= items_view(items@).skip(
            i as int + 1,
        ));
        i += 1;
    }
    assert(items_view(items@).skip(i as int).len() == 0);
    None
}

fn encode_value_from(t: u8, v: &Vec<u8>, pos: usize, out: &mut Vec<u8>)
    requires
        pos <= v@.len(),
    ensures
        final(out)@ == old(out)@ + spec_encode_value(t, v@.skip(pos as int)),
    decreases v@.len() - pos,
{
    let n = v.len();
    if n - pos <= 255 {
        out.push(t);
        out.push((n - pos) as u8);
        let tail = subrange_vec(v, pos, n);
        append_bytes(out, &tail);
        assert(out@ =~= old(out)@ + (seq![t, (n - pos) as u8] + v@.skip(pos as int)));
    } else {
        out.push(t);
        out.push(255u8);
        let frag = subrange_vec(v, pos, pos + 255);
        append_bytes(out, &frag);
        assert(v@.skip(pos as int).take(255) =~= v@.subrange(pos as int, pos as int + 255));
        encode_value_from(t, v, pos + 255, out);
        assert(v@.skip(pos as int).skip(255) =~= v@.skip(pos as int + 255));
        assert(out@ =~= old(out)@ + (seq![t, 255u8] + v@.skip(pos as int).take(255)
            + spec_encode_value(t, v@.skip(pos as int).skip(255))));
    }
}

/// Encodes one typed value, fragmenting values over 255 bytes.
pub fn encode_value(t: u8, v: &Vec<u8>) -> (r: Vec<u8>)
    ensures
        r@ == spec_encode_value(t, v@),
{
    let mut out: Vec<u8> = Vec::new();
    encode_value_from(t, v, 0, &mut out);
    assert(v@.skip(0) =~= v@);
    assert(out@ =~= spec_encode_value(t, v@));
    out
}

/// Encodes a sequence of TLV items, in order.
pub fn encode_items(items: &Vec<TlvItem>) -> (r: Vec<u8>)
    ensures
        r@ == spec_encode_items(items_view(items@)),
{
    let mut out: Vec<u8> = Vec::new();
    let mut i: usize = 0;
    assert(items_view(items@).skip(0) =~= items_view(items@));
    assert(out@ + spec_encode_items(items_view(items@)) =~= spec_encode_items(
        items_view(items@),
    ));
    while i < items.len()
        invariant
            0 <= i <= items@.len(),
            out@ + spec_encode_items(items_view(items@).skip(i as int)) == spec_encode_items(
                items_view(items@),
            ),
        decreases items@.len() - i,
    {
        let ghost s = items_view(items@).skip(i as int);
        assert(s[0] == items_view(items@)[i as int]);
        let piece = encode_value(items[i].t, &items[i].value);
        append_bytes(&mut out, &piece);
        assert(items_view(items@).skip(i as int).skip(1) =~= items_view(items@).skip(
            i as int + 1,
        ));
        i += 1;
    }
    assert(spec_encode_items(items_view(items@).skip(i as int)) =~= Seq::<u8>::empty());
    assert(out@ =~= out@ + Seq::<u8>::empty());
    out
}

/// A value of at most 255 bytes encodes to its length plus two.
pub proof fn lemma_encode_value_short(t: u8, v: Seq<u8>)
    requires
        v.len() <= 255,
    ensures
        spec_encode_value(t, v).len() == v.len() + 2,
{
}

/// A value of any length encodes, fragments included, to at most twice
/// its length plus two.
pub proof fn lemma_encode_value_len(t: u8, v: Seq<u8>)
    ensures
        spec_encode_value(t, v).len() <= 2 * v.len() + 2,
    decreases v.len(),
{
    if v.len() > 255 {
        lemma_encode_value_len(t, v.skip(255));
    }
}


/// A typed value of a handshake reply container.
#[derive(Debug)]
pub enum Value {
    /// A handshake state code.
    State(u8),
    /// A public key or ephemeral public value.
    PublicKey(Vec<u8>),
    /// An SRP salt.
    Salt(Vec<u8>),
    /// An SRP proof.
    Proof(Vec<u8>),
    /// An encrypted payload (ciphertext with trailing tag).
    EncryptedData(Vec<u8>),
    /// A pairing identifier.
    Identifier(Vec<u8>),
    /// An Ed25519 signature.
    Signature(Vec<u8>),
    /// An error code.
    ErrorCode(u8),
}

/// The wire type code of a typed value.
pub open spec fn spec_value_type(v: Value) -> u8 {
    match v {
        Value::State(_) => TYPE_STATE,
        Value::PublicKey(_) => TYPE_PUBLIC_KEY,
        Value::Salt(_) => TYPE_SALT,
        Value::Proof(_) => TYPE_PROOF,
        Value::EncryptedData(_) => TYPE_ENCRYPTED_DATA,
        Value::Identifier(_) => TYPE_IDENTIFIER,
        Value::Signature(_) => TYPE_SIGNATURE,
        Value::ErrorCode(_) => TYPE_ERROR,
    }
}

/// The value bytes of a typed value.
pub open spec fn spec_value_bytes(v: Value) -> Seq<u8> {
    match v {
        Value::State(x) => seq![x],
        Value::PublicKey(b) => b@,
        Value::Salt(b) => b@,
        Value::Proof(b) => b@,
        Value::EncryptedData(b) => b@,
        Value::Identifier(b) => b@,
        Value::Signature(b) => b@,
        Value::ErrorCode(x) => seq![x],
    }
}

/// The items of a reply container, in order.
pub open spec fn container_items(s: Seq<Value>) -> Seq<(u8, Seq<u8>)> {
    s.map(|i: int, v: Value| (spec_value_type(v), spec_value_bytes(v)))
}

/// The wire encoding of a reply container.
pub open spec fn spec_encode_container(s: Seq<Value>) -> Seq<u8> {
    spec_encode_items(container_items(s))
}

fn value_to_item(v: &Value) -> (r: TlvItem)
    ensures
        r.t == spec_value_type(*v),
        r.value@ == spec_value_bytes(*v),
{
    match v {
        Value::State(x) => {
            let value: Vec<u8> = vec![*x];
            assert(value@ =~= seq![*x]);
            TlvItem { t: TYPE_STATE, value }
        },
        Value::PublicKey(b) => TlvItem { t: TYPE_PUBLIC_KEY, value: copy_bytes(b) },
        Value::Salt(b) => TlvItem { t: TYPE_SALT, value: copy_bytes(b) },
        Value::Proof(b) => TlvItem { t: TYPE_PROOF, value: copy_bytes(b) },
        Value::EncryptedData(b) => TlvItem { t: TYPE_ENCRYPTED_DATA, value: copy_bytes(b) },
        Value::Identifier(b) => TlvItem { t: TYPE_IDENTIFIER, value: copy_bytes(b) },
        Value::Signature(b) => TlvItem { t: TYPE_SIGNATURE, value: copy_bytes(b) },
        Value::ErrorCode(x) => {
            let value: Vec<u8> = vec![*x];
            assert(value@ =~= seq![*x]);
            TlvItem { t: TYPE_ERROR, value }
        },
    }
}

/// Encodes a reply container to its wire bytes.
pub fn encode_container(c: &Vec<Value>) -> (r: Vec<u8>)
    ensures
        r@ == spec_encode_container(c@),
{
    let mut items: Vec<TlvItem> = Vec::new();
    let mut i: usize = 0;
    while i < c.len()
        invariant
            0 <= i <= c@.len(),
            items_view(items@) =~= container_items(c@).take(i as int),
        decreases c@.len() - i,
    {
        items.push(value_to_item(&c[i]));
        assert(items_view(items@) =~= container_items(c@).take(i as int).push(
            container_items(c@)[i as int],
        ));
        assert(container_items(c@).take(i as int).push(container_items(c@)[i as int])
            =~= container_items(c@).take(i as int + 1));
        i += 1;
    }
    assert(items_view(items@) =~= container_items(c@));
    encode_items(&items)
}

} // verus!

