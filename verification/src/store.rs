//! Data held for the core by its collaborators, modelled as plain values:
//! the accessory's own identity, the controller trust records with their
//! store, the optional peer ceiling, the emitted events, and the transport
//! session handed off after a successful Pair-Verify.

use vstd::prelude::*;

use crate::bytes::copy_bytes;

verus! {

/// Permission level granted to a paired controller.
#[derive(Debug, Clone, Copy, PartialEq, Eq, Structural)]
pub enum Permissions {
    /// An ordinary user.
    User,
    /// An administrator; granted to the controller that completes Pair-Setup.
    Admin,
}

/// Ceiling on the accessory identifier's length: the identifier is
/// embedded, TLV-encoded, in the sealed identity replies, and the
/// cipher boundary accepts plaintexts below 16 MiB; one mebibyte of
/// identifier keeps every such reply inside that machine limit.
pub const MAX_DEVICE_ID_LEN: usize = 0x100000;

/// The accessory's stable identity: identifier text, Ed25519 key pair and
/// setup PIN.
pub struct Device {
    /// The accessory's identifier text.
    pub id: Vec<u8>,
    /// The setup PIN.
    pub pin: Vec<u8>,
    /// The 32-byte Ed25519 public key.
    pub public_key: Vec<u8>,
    /// The 64-byte Ed25519 secret key.
    pub private_key: Vec<u8>,
}

impl Device {
    /// Key lengths as Ed25519 requires, and an identifier inside the
    /// machine limit of the sealed identity replies.
    pub open spec fn wf(&self) -> bool {
        &&& self.public_key@.len() == 32
        &&& self.private_key@.len() == 64
        &&& self.id@.len() <= MAX_DEVICE_ID_LEN
    }

    /// Builds an accessory identity.
    pub fn new(id: Vec<u8>, pin: Vec<u8>, public_key: Vec<u8>, private_key: Vec<u8>) -> (r:
        Device)
        requires
            public_key@.len() == 32,
            private_key@.len() == 64,
            id@.len() <= MAX_DEVICE_ID_LEN,
        ensures
            r.id@ == id@ && r.pin@ == pin@ && r.public_key@ == public_key@ && r.private_key@
                == private_key@,
            r.wf(),
    {
        Device { id, pin, public_key, private_key }
    }
}

/// A persisted record of trust between the accessory and one controller.
#[derive(Debug)]
pub struct Pairing {
    /// The controller's 16 identifier bytes.
    pub id: Vec<u8>,
    /// The granted permission level.
    pub permissions: Permissions,
    /// The controller's 32-byte long-term Ed25519 public key.
    pub public_key: Vec<u8>,
}

impl Pairing {
    /// A 16-byte identifier and a 32-byte public key.
    pub open spec fn wf(&self) -> bool {
        self.id@.len() == 16 && self.public_key@.len() == 32
    }

    /// Builds a trust record.
    pub fn new(id: Vec<u8>, permissions: Permissions, public_key: Vec<u8>) -> (r: Pairing)
        requires
            id@.len() == 16,
            public_key@.len() == 32,
        ensures
            r.id@ == id@ && r.permissions == permissions && r.public_key@ == public_key@,
            r.wf(),
    {
        Pairing { id, permissions, public_key }
    }
}

/// The first index holding a pairing with the given identifier.
pub open spec fn spec_find_index(s: Seq<Pairing>, id: Seq<u8>) -> Option<int>
    decreases s.len(),
{
    if s.len() == 0 {
        None
    } else if s[0].id@ == id {
        Some(0)
    } else {
        match spec_find_index(s.skip(1), id) {
            Some(i) => Some(i + 1),
            None => None,
        }
    }
}

/// The index of a found pairing lies inside the store.
pub proof fn lemma_find_index_in_range(s: Seq<Pairing>, id: Seq<u8>)
    ensures
        spec_find_index(s, id) matches Some(k) ==> 0 <= k < s.len(),
    decreases s.len(),
{
    if s.len() > 0 {
        lemma_find_index_in_range(s.skip(1), id);
    }
}

/// How a store looks after saving a record: the first record with the same
/// identifier replaced, or the record appended when none existed.
pub open spec fn spec_saved(olds: Seq<Pairing>, news: Seq<Pairing>, p: Pairing) -> bool {
    match spec_find_index(olds, p.id@) {
        Some(i) => news == olds.update(i, p),
        None => news == olds.push(p),
    }
}

/// The controller-trust store, holding the current pairing records.
pub struct PairingStore {
    /// The stored pairing records.
    pub pairings: Vec<Pairing>,
}

impl PairingStore {
    /// All stored records are well formed.
    pub open spec fn wf(&self) -> bool {
        forall|i: int| 0 <= i < self.pairings@.len() ==> (#[trigger] self.pairings@[i]).wf()
    }

    /// An empty store.
    pub fn new() -> (r: PairingStore)
        ensures
            r.pairings@.len() == 0,
            r.wf(),
    {
        PairingStore { pairings: Vec::new() }
    }

    /// The number of stored pairings.
    pub fn count_pairings(&self) -> (r: usize)
        ensures
            r == self.pairings@.len(),
    {
        self.pairings.len()
    }

    /// Looks a pairing up by its 16 identifier bytes; a copy of the first
    /// record with that identifier, or `None`.
    pub fn load_pairing(&self, id: &Vec<u8>) -> (r: Option<Pairing>)
        ensures
            match r {
                Some(p) => spec_find_index(self.pairings@, id@) matches Some(i)
                    && p.id@ == self.pairings@[i].id@ && p.permissions
                    == self.pairings@[i].permissions && p.public_key@
                    == self.pairings@[i].public_key@ && p.id@ == id@,
                None => spec_find_index(self.pairings@, id@) is None,
            },
    {
        let mut i: usize = 0;
        assert(self.pairings@.skip(0) =~= self.pairings@);
        proof {
            lemma_find_index_in_range(self.pairings@, id@);
        }
        while i < self.pairings.len()
            invariant
                0 <= i <= self.pairings@.len(),
                forall|j: int| 0 <= j < i ==> (#[trigger] self.pairings@[j]).id@ != id@,
                spec_find_index(self.pairings@, id@) matches Some(k) ==> i <= k,
                (spec_find_index(self.pairings@, id@) is Some) == (spec_find_index(
                    self.pairings@.skip(i as int),
                    id@,
                ) is Some),
                spec_find_index(self.pairings@, id@) matches Some(k) ==> spec_find_index(
                    self.pairings@.skip(i as int),
                    id@,
                ) == Some(k - i),
            decreases self.pairings@.len() - i,
        {
            let ghost s = self.pairings@.skip(i as int);
            assert(s[0] == self.pairings@[i as int]);
            assert(s.skip(1) =~= self.pairings@.skip(i as int + 1));
            proof {
                lemma_find_index_in_range(s, id@);
                lemma_find_index_in_range(s.skip(1), id@);
            }
            if crate::bytes::bytes_eq(&self.pairings[i].id, id) {
                let p = Pairing {
                    id: copy_bytes(&self.pairings[i].id),
                    permissions: self.pairings[i].permissions,
                    public_key: copy_bytes(&self.pairings[i].public_key),
                };
                return Some(p);
            }
            i += 1;
        }
        assert(self.pairings@.skip(i as int).len() == 0);
        None
    }

    /// Saves a record: replaces the first record with the same identifier,
    /// or appends.
    pub fn save_pairing(&mut self, p: Pairing)
        requires
            p.wf(),
            old(self).wf(),
        ensures
            spec_saved(old(self).pairings@, final(self).pairings@, p),
            final(self).wf(),
    {
        let ghost s0 = self.pairings@;
        let mut i: usize = 0;
        assert(self.pairings@.skip(0) =~= self.pairings@);
        proof {
            lemma_find_index_in_range(self.pairings@, p.id@);
        }
        while i < self.pairings.len()
            invariant
                0 <= i <= self.pairings@.len(),
                self.pairings@ == s0,
                s0 == old(self).pairings@,
                p.wf(),
                forall|j: int| 0 <= j < s0.len() ==> (#[trigger] s0[j]).wf(),
                forall|j: int| 0 <= j < i ==> (#[trigger] self.pairings@[j]).id@ != p.id@,
                (spec_find_index(self.pairings@, p.id@) is Some) == (spec_find_index(
                    self.pairings@.skip(i as int),
                    p.id@,
                ) is Some),
                spec_find_index(self.pairings@, p.id@) matches Some(k) ==> spec_find_index(
                    self.pairings@.skip(i as int),
                    p.id@,
                ) == Some(k - i) && i <= k,
            decreases self.pairings@.len() - i,
        {
            let ghost s = self.pairings@.skip(i as int);
            assert(s[0] == self.pairings@[i as int]);
            assert(s.skip(1) =~= self.pairings@.skip(i as int + 1));
            proof {
                lemma_find_index_in_range(s, p.id@);
                lemma_find_index_in_range(s.skip(1), p.id@);
            }
            if crate::bytes::bytes_eq(&self.pairings[i].id, &p.id) {
                assert(spec_find_index(self.pairings@, p.id@) == Some(i as int));
                let _ = self.pairings.remove(i);
                self.pairings.insert(i, p);
                proof {
                    let i0 = i as int;
                    assert(self.pairings@ =~= s0.remove(i0).insert(i0, p));
                    assert forall|j: int| 0 <= j < s0.len() implies s0.remove(i0).insert(
                        i0,
                        p,
                    )[j] == s0.update(i0, p)[j] by {
                        if j < i0 {
                        } else if j == i0 {
                        } else {
                        }
                    }
                    assert(s0.remove(i0).insert(i0, p) =~= s0.update(i0, p));
                    assert(self.pairings@ == s0.update(i0, p));
                    assert forall|j: int| 0 <= j < self.pairings@.len() implies (
                    #[trigger] self.pairings@[j]).wf() by {
                        assert(self.pairings@[j] == s0.update(i0, p)[j]);
                        if j == i0 {
                            assert(self.pairings@[j] == p);
                        } else {
                            assert(self.pairings@[j] == s0[j]);
                            assert(s0[j].wf());
                        }
                    }
                }
                return ;
            }
            i += 1;
        }
        assert(self.pairings@.skip(i as int).len() == 0);
        self.pairings.push(p);
    }
}

/// The optional peer ceiling of the accessory's configuration.
pub struct Config {
    /// When set, the highest number of pairings the store may hold.
    pub max_peers: Option<usize>,
}

/// A notification emitted by the core.
#[derive(Debug, Clone, Copy, PartialEq, Eq, Structural)]
pub enum Event {
    /// A controller completed Pair-Setup and was persisted.
    DevicePaired,
}

/// The completed transport session handed off after Pair-Verify: the
/// controller's identifier bytes and the raw ECDH shared secret.
#[derive(Debug)]
pub struct TransportSession {
    /// The controller's 16 identifier bytes.
    pub controller_id: Vec<u8>,
    /// The raw 32-byte Curve25519 shared secret.
    pub shared_secret: Vec<u8>,
}

} // verus!
