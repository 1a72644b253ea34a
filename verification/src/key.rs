//! Content keys and peer identifiers: opaque byte strings compared byte by byte.

use vstd::prelude::*;
use vstd::std_specs::cmp::PartialEqSpecImpl;

verus! {

/// Whether two byte strings hold the same bytes.
pub fn same_bytes(a: &Vec<u8>, b: &Vec<u8>) -> (same: bool)
    ensures
        same == (a@ == b@),
{
    if a.len() != b.len() {
        return false;
    }
    let mut i: usize = 0;
    while i < a.len()
        invariant
            a.len() == b.len(),
            i <= a.len(),
            a@.subrange(0, i as int) == b@.subrange(0, i as int),
        decreases a.len() - i,
    {
        if a[i] != b[i] {
            return false;
        }
        assert(a@.subrange(0, i + 1) =~= a@.subrange(0, i as int).push(a@[i as int]));
        assert(b@.subrange(0, i + 1) =~= b@.subrange(0, i as int).push(b@[i as int]));
        i += 1;
    }
    assert(a@ =~= a@.subrange(0, i as int));
    assert(b@ =~= b@.subrange(0, i as int));
    true
}

/// A copy of a byte string.
pub fn copy_bytes(bytes: &Vec<u8>) -> (copy: Vec<u8>)
    ensures
        copy@ == bytes@,
{
    let mut copy: Vec<u8> = Vec::with_capacity(bytes.len());
    let mut i: usize = 0;
    while i < bytes.len()
        invariant
            i <= bytes.len(),
            copy@ == bytes@.subrange(0, i as int),
        decreases bytes.len() - i,
    {
        copy.push(bytes[i]);
        assert(bytes@.subrange(0, i + 1) =~= bytes@.subrange(0, i as int).push(bytes@[i as int]));
        i += 1;
    }
    assert(bytes@ =~= bytes@.subrange(0, i as int));
    copy
}

/// The bytes that an optional byte string holds, if any.
pub open spec fn bytes_of(bytes: Option<Vec<u8>>) -> Option<Seq<u8>> {
    match bytes {
        Some(data) => Some(data@),
        None => None,
    }
}

/// The key of a piece of content: an opaque byte string.
#[derive(Debug, Eq, Hash)]
pub struct RecordKey {
    bytes: Vec<u8>,
}

impl View for RecordKey {
    type V = Seq<u8>;

    closed spec fn view(&self) -> Seq<u8> {
        self.bytes@
    }
}

impl RecordKey {
    /// The key made of the given bytes.
    pub fn new(bytes: Vec<u8>) -> (key: Self)
        ensures
            key@ == bytes@,
    {
        RecordKey { bytes }
    }

    /// The bytes of the key.
    pub fn to_vec(&self) -> (bytes: Vec<u8>)
        ensures
            bytes@ == self@,
    {
        copy_bytes(&self.bytes)
    }

    /// The bytes of the key, borrowed.
    pub fn as_bytes(&self) -> (bytes: &Vec<u8>)
        ensures
            bytes@ == self@,
    {
        &self.bytes
    }
}

impl Clone for RecordKey {
    fn clone(&self) -> (copy: Self)
        ensures
            copy@ == self@,
    {
        RecordKey { bytes: copy_bytes(&self.bytes) }
    }
}

impl PartialEq for RecordKey {
    fn eq(&self, other: &Self) -> (same: bool) {
        same_bytes(&self.bytes, &other.bytes)
    }
}

impl PartialEqSpecImpl for RecordKey {
    open spec fn obeys_eq_spec() -> bool {
        true
    }

    open spec fn eq_spec(&self, other: &Self) -> bool {
        self@ == other@
    }
}

/// The identifier of a participant of the network: an opaque byte string.
#[derive(Debug, Eq, Hash)]
pub struct PeerId {
    bytes: Vec<u8>,
}

impl View for PeerId {
    type V = Seq<u8>;

    closed spec fn view(&self) -> Seq<u8> {
        self.bytes@
    }
}

impl PeerId {
    /// The identifier made of the given bytes.
    pub fn from_bytes(bytes: Vec<u8>) -> (peer: Self)
        ensures
            peer@ == bytes@,
    {
        PeerId { bytes }
    }

    /// The bytes of the identifier.
    pub fn to_bytes(&self) -> (bytes: Vec<u8>)
        ensures
            bytes@ == self@,
    {
        copy_bytes(&self.bytes)
    }
}

impl Clone for PeerId {
    fn clone(&self) -> (copy: Self)
        ensures
            copy@ == self@,
    {
        PeerId { bytes: copy_bytes(&self.bytes) }
    }
}

impl PartialEq for PeerId {
    fn eq(&self, other: &Self) -> (same: bool) {
        same_bytes(&self.bytes, &other.bytes)
    }
}

impl PartialEqSpecImpl for PeerId {
    open spec fn obeys_eq_spec() -> bool {
        true
    }

    open spec fn eq_spec(&self, other: &Self) -> bool {
        self@ == other@
    }
}

/// A set of peers, kept in the order in which they were added.
#[derive(Debug)]
pub struct PeerSet {
    peers: Vec<PeerId>,
}

impl View for PeerSet {
    type V = Seq<Seq<u8>>;

    closed spec fn view(&self) -> Seq<Seq<u8>> {
        identifiers(self.peers@)
    }
}

/// The byte strings of a list of peers, in the same order.
pub open spec fn identifiers(peers: Seq<PeerId>) -> Seq<Seq<u8>> {
    Seq::new(peers.len(), |i: int| peers[i]@)
}

impl PeerSet {
    #[verifier::type_invariant]
    closed spec fn distinct(&self) -> bool {
        self@.no_duplicates()
    }

    /// The empty set.
    pub fn new() -> (set: Self)
        ensures
            set@ == Seq::<Seq<u8>>::empty(),
    {
        let set = PeerSet { peers: Vec::new() };
        assert(set@ =~= Seq::<Seq<u8>>::empty());
        set
    }

    /// The number of peers in the set.
    pub fn len(&self) -> (len: usize)
        ensures
            len == self@.len(),
            self@.no_duplicates(),
    {
        proof {
            use_type_invariant(self);
        }
        self.peers.len()
    }

    /// Whether the set holds no peer.
    pub fn is_empty(&self) -> (empty: bool)
        ensures
            empty == (self@.len() == 0),
            self@.no_duplicates(),
    {
        proof {
            use_type_invariant(self);
        }
        self.peers.len() == 0
    }

    /// The peer at a position below `len()`.
    pub fn get(&self, index: usize) -> (peer: &PeerId)
        requires
            index < self@.len(),
        ensures
            peer@ == self@[index as int],
    {
        &self.peers[index]
    }

    /// The position of a peer in the set, if it is there.
    pub fn position(&self, peer: &PeerId) -> (found: Option<usize>)
        ensures
            self@.no_duplicates(),
            match found {
                Some(index) => index < self@.len() && self@[index as int] == peer@,
                None => !self@.contains(peer@),
            },
    {
        proof {
            use_type_invariant(self);
        }
        let mut i: usize = 0;
        while i < self.peers.len()
            invariant
                i <= self.peers@.len(),
                self@.len() == self.peers@.len(),
                self@.no_duplicates(),
                forall|j: int| 0 <= j < i ==> self@[j] != peer@,
            decreases self.peers.len() - i,
        {
            if self.peers[i] == *peer {
                return Some(i);
            }
            i += 1;
        }
        None
    }

    /// Whether a peer is in the set.
    pub fn contains(&self, peer: &PeerId) -> (found: bool)
        ensures
            found == self@.contains(peer@),
    {
        self.position(peer).is_some()
    }

    /// Adds a peer unless it is already there; says whether it was added.
    pub fn insert(&mut self, peer: PeerId) -> (added: bool)
        ensures
            added == !old(self)@.contains(peer@),
            final(self)@ == if added {
                old(self)@.push(peer@)
            } else {
                old(self)@
            },
            final(self)@.no_duplicates(),
    {
        proof {
            use_type_invariant(&*self);
        }
        if self.position(&peer).is_some() {
            return false;
        }
        let ghost before = self@;
        let mut peers: Vec<PeerId> = Vec::new();
        assert(identifiers(peers@) =~= Seq::<Seq<u8>>::empty());
        core::mem::swap(&mut self.peers, &mut peers);
        peers.push(peer);
        assert(identifiers(peers@) =~= before.push(peer@));
        core::mem::swap(&mut self.peers, &mut peers);
        true
    }

    /// Takes a peer out of the set; says whether it was there.
    pub fn remove(&mut self, peer: &PeerId) -> (removed: bool)
        ensures
            removed == old(self)@.contains(peer@),
            final(self)@ == old(self)@.remove_value(peer@),
            final(self)@.no_duplicates(),
            final(self)@.len() == if removed {
                old(self)@.len() - 1
            } else {
                old(self)@.len() as int
            },
    {
        proof {
            use_type_invariant(&*self);
        }
        let ghost before = self@;
        match self.position(peer) {
            Some(index) => {
                proof {
                    before.index_of_first_ensures(peer@);
                }
                assert(before.index_of_first(peer@) == Some(index as int));
                let mut peers: Vec<PeerId> = Vec::new();
                assert(identifiers(peers@) =~= Seq::<Seq<u8>>::empty());
                core::mem::swap(&mut self.peers, &mut peers);
                let _ = peers.remove(index);
                assert(identifiers(peers@) =~= before.remove(index as int));
                core::mem::swap(&mut self.peers, &mut peers);
                true
            },
            None => {
                proof {
                    before.index_of_first_ensures(peer@);
                }
                false
            },
        }
    }
}

impl PartialEq for PeerSet {
    fn eq(&self, other: &Self) -> (same: bool) {
        proof {
            use_type_invariant(self);
            use_type_invariant(other);
        }
        if self.peers.len() != other.peers.len() {
            return false;
        }
        let mut i: usize = 0;
        while i < self.peers.len()
            invariant
                i <= self.peers@.len(),
                self@.len() == self.peers@.len(),
                forall|j: int| 0 <= j < i ==> other@.contains(self@[j]),
            decreases self.peers.len() - i,
        {
            if !other.contains(&self.peers[i]) {
                assert(self@.contains(self@[i as int]));
                return false;
            }
            i += 1;
        }
        assert forall|peer: Seq<u8>| self@.contains(peer) implies other@.contains(peer) by {
            let j = self@.index_of(peer);
            assert(other@.contains(self@[j]));
        }
        true
    }
}

impl PartialEqSpecImpl for PeerSet {
    open spec fn obeys_eq_spec() -> bool {
        true
    }

    open spec fn eq_spec(&self, other: &Self) -> bool {
        self@.len() == other@.len() && forall|peer: Seq<u8>|
            self@.contains(peer) ==> other@.contains(peer)
    }
}

impl Eq for PeerSet {

}

impl Clone for PeerSet {
    fn clone(&self) -> (copy: Self)
        ensures
            copy@ == self@,
    {
        proof {
            use_type_invariant(self);
        }
        let mut peers: Vec<PeerId> = Vec::with_capacity(self.peers.len());
        let mut i: usize = 0;
        while i < self.peers.len()
            invariant
                i <= self.peers@.len(),
                identifiers(peers@) == identifiers(self.peers@).subrange(0, i as int),
            decreases self.peers.len() - i,
        {
            let ghost before = identifiers(peers@);
            peers.push(self.peers[i].clone());
            assert(identifiers(peers@) =~= before.push(self.peers@[i as int]@));
            assert(identifiers(self.peers@).subrange(0, i + 1) =~= before.push(
                self.peers@[i as int]@,
            ));
            i += 1;
        }
        assert(identifiers(self.peers@) =~= identifiers(self.peers@).subrange(0, i as int));
        PeerSet { peers }
    }
}

} // verus!
