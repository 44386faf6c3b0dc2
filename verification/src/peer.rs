//! Peers as the streaming logic sees them: a peer is known by the bytes of
//! its identity, and the set of connected peers is a plain set of those.

use vstd::prelude::*;

verus! {

/// The identity of a remote peer, held as the bytes of its encoded peer ID.
///
/// Two keys name the same peer exactly when their bytes are equal.
#[derive(Debug)]
pub struct PeerKey {
    bytes: Vec<u8>,
}

impl View for PeerKey {
    type V = Seq<u8>;

    closed spec fn view(&self) -> Seq<u8> {
        self.bytes@
    }
}

impl PeerKey {
    /// The key whose identity bytes are `bytes`.
    pub fn from_bytes(bytes: Vec<u8>) -> (key: Self)
        ensures
            key@ == bytes@,
    {
        PeerKey { bytes }
    }

    /// The identity bytes of this key.
    pub fn to_bytes(&self) -> (bytes: Vec<u8>)
        ensures
            bytes@ == self@,
    {
        let mut out: Vec<u8> = Vec::new();
        let mut i: usize = 0;
        while i < self.bytes.len()
            invariant
                i <= self.bytes@.len(),
                out@ == self.bytes@.subrange(0, i as int),
            decreases self.bytes@.len() - i,
        {
            out.push(self.bytes[i]);
            i = i + 1;
            assert(out@ =~= self.bytes@.subrange(0, i as int));
        }
        assert(out@ =~= self.bytes@);
        out
    }

    /// Whether both keys name the same peer.
    pub fn same_peer(&self, other: &PeerKey) -> (same: bool)
        ensures
            same == (self@ == other@),
    {
        if self.bytes.len() != other.bytes.len() {
            return false;
        }
        let mut i: usize = 0;
        while i < self.bytes.len()
            invariant
                i <= self.bytes@.len(),
                self.bytes@.len() == other.bytes@.len(),
                self.bytes@.subrange(0, i as int) == other.bytes@.subrange(0, i as int),
            decreases self.bytes@.len() - i,
        {
            if self.bytes[i] != other.bytes[i] {
                assert(self.bytes@[i as int] != other.bytes@[i as int]);
                return false;
            }
            i = i + 1;
            assert(self.bytes@.subrange(0, i as int) =~= self.bytes@.subrange(0, i - 1 as int).push(
                self.bytes@[i - 1],
            ));
            assert(other.bytes@.subrange(0, i as int) =~= other.bytes@.subrange(0, i - 1 as int).push(
                other.bytes@[i - 1],
            ));
        }
        assert(self.bytes@ =~= self.bytes@.subrange(0, i as int));
        assert(other.bytes@ =~= other.bytes@.subrange(0, i as int));
        true
    }
}

impl Clone for PeerKey {
    fn clone(&self) -> (key: Self)
        ensures
            key@ == self@,
    {
        PeerKey { bytes: self.to_bytes() }
    }
}

/// The peers that are currently connected, each held once.
pub struct PeerSet {
    peers: Vec<PeerKey>,
}

/// The identities of `peers`, in order.
pub open spec fn peer_keys(peers: Seq<PeerKey>) -> Seq<Seq<u8>> {
    peers.map_values(|p: PeerKey| p@)
}

impl View for PeerSet {
    type V = Set<Seq<u8>>;

    closed spec fn view(&self) -> Set<Seq<u8>> {
        peer_keys(self.peers@).to_set()
    }
}

impl PeerSet {
    /// No peer is held twice.
    #[verifier::type_invariant]
    spec fn holds_each_once(self) -> bool {
        peer_keys(self.peers@).no_duplicates()
    }

    /// The empty set of peers.
    pub fn new() -> (set: Self)
        ensures
            set@ == Set::<Seq<u8>>::empty(),
    {
        let set = PeerSet { peers: Vec::new() };
        assert(set@ =~= Set::<Seq<u8>>::empty());
        set
    }

    /// Whether `peer` is in the set.
    pub fn contains(&self, peer: &PeerKey) -> (found: bool)
        ensures
            found == self@.contains(peer@),
    {
        let ghost keys = peer_keys(self.peers@);
        let mut i: usize = 0;
        while i < self.peers.len()
            invariant
                i <= self.peers@.len(),
                keys == peer_keys(self.peers@),
                forall|j: int| 0 <= j < i ==> keys[j] != peer@,
            decreases self.peers@.len() - i,
        {
            if self.peers[i].same_peer(peer) {
                assert(keys[i as int] == peer@);
                assert(keys.contains(peer@));
                return true;
            }
            i = i + 1;
        }
        assert(!keys.contains(peer@));
        false
    }

    /// Adds `peer`; a peer that is already present stays present once.
    pub fn insert(&mut self, peer: PeerKey)
        ensures
            final(self)@ == old(self)@.insert(peer@),
    {
        proof {
            use_type_invariant(&*self);
        }
        if !self.contains(&peer) {
            let ghost k = peer@;
            let ghost keys = peer_keys(self.peers@);
            assert(!keys.contains(k));
            let mut peers = Vec::new();
            std::mem::swap(&mut peers, &mut self.peers);
            peers.push(peer);
            proof {
                assert(peer_keys(peers@) =~= keys.push(k));
                keys.lemma_push_to_set_commute(k);
                assert forall|a: int, b: int|
                    0 <= a < b < peer_keys(peers@).len() implies peer_keys(peers@)[a] != peer_keys(
                    peers@,
                )[b] by {
                    if b == keys.len() {
                        assert(keys[a] == peer_keys(peers@)[a]);
                    }
                }
            }
            self.peers = peers;
        } else {
            assert(old(self)@ =~= old(self)@.insert(peer@));
        }
    }

    /// Removes `peer`; removing a peer that is absent changes nothing.
    pub fn remove(&mut self, peer: &PeerKey)
        ensures
            final(self)@ == old(self)@.remove(peer@),
    {
        proof {
            use_type_invariant(&*self);
        }
        let mut kept: Vec<PeerKey> = Vec::new();
        let mut i: usize = 0;
        let ghost k = peer@;
        let ghost all = peer_keys(self.peers@);
        assert(peer_keys(kept@).to_set() =~= all.take(0).to_set().remove(k));
        while i < self.peers.len()
            invariant
                i <= self.peers@.len(),
                k == peer@,
                all == peer_keys(self.peers@),
                all.no_duplicates(),
                peer_keys(kept@).no_duplicates(),
                peer_keys(kept@).to_set() == all.take(i as int).to_set().remove(k),
            decreases self.peers@.len() - i,
        {
            let ghost before = peer_keys(kept@);
            let ghost cur = all[i as int];
            let same = self.peers[i].same_peer(peer);
            proof {
                assert(all.take(i + 1 as int) =~= all.take(i as int).push(cur));
                all.take(i as int).lemma_push_to_set_commute(cur);
            }
            if !same {
                proof {
                    if before.contains(cur) {
                        let j = choose|j: int| 0 <= j < before.len() && before[j] == cur;
                        assert(before.to_set().contains(cur));
                        assert(all.take(i as int).to_set().contains(cur));
                        assert(all.take(i as int).contains(cur));
                        let m = choose|m: int| 0 <= m < i && all.take(i as int)[m] == cur;
                        assert(all[m] == all[i as int]);
                    }
                }
                let copy = self.peers[i].clone();
                kept.push(copy);
                proof {
                    assert(peer_keys(kept@) =~= before.push(cur));
                    assert forall|a: int, b: int|
                        0 <= a < b < before.push(cur).len() implies before.push(cur)[a] != before.push(
                        cur,
                    )[b] by {
                        if b == before.len() {
                            assert(before[a] == before.push(cur)[a]);
                            assert(before.contains(before[a]));
                        }
                    }
                    before.lemma_push_to_set_commute(cur);
                    assert(peer_keys(kept@).to_set() =~= all.take(i + 1 as int).to_set().remove(k));
                }
            } else {
                assert(peer_keys(kept@).to_set() =~= all.take(i + 1 as int).to_set().remove(k));
            }
            i = i + 1;
        }
        assert(all.take(i as int) =~= all);
        self.peers = kept;
    }
}

} // verus!
