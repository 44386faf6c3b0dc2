use libp2p_streaming::{PeerKey, PeerSet};

#[test]
fn peer_key_round_trips_its_bytes() {
    let key = PeerKey::from_bytes(vec![0, 36, 8, 1, 18, 32]);
    assert_eq!(key.to_bytes(), vec![0, 36, 8, 1, 18, 32]);
}

#[test]
fn peer_key_clone_keeps_the_bytes() {
    let key = PeerKey::from_bytes(vec![9, 8, 7]);
    let copy = key.clone();
    assert_eq!(copy.to_bytes(), vec![9, 8, 7]);
    assert!(copy.same_peer(&key));
}

#[test]
fn same_peer_compares_all_bytes() {
    let a = PeerKey::from_bytes(vec![1, 2, 3]);
    assert!(a.same_peer(&PeerKey::from_bytes(vec![1, 2, 3])));
    assert!(!a.same_peer(&PeerKey::from_bytes(vec![1, 2, 4])));
    assert!(!a.same_peer(&PeerKey::from_bytes(vec![1, 2])));
    assert!(!a.same_peer(&PeerKey::from_bytes(vec![1, 2, 3, 0])));
    assert!(PeerKey::from_bytes(vec![]).same_peer(&PeerKey::from_bytes(vec![])));
}

#[test]
fn peer_set_insert_contains_remove() {
    let mut set = PeerSet::new();
    let a = PeerKey::from_bytes(vec![1]);
    let b = PeerKey::from_bytes(vec![2]);
    assert!(!set.contains(&a));
    set.insert(a.clone());
    set.insert(a.clone());
    set.insert(b.clone());
    assert!(set.contains(&a));
    assert!(set.contains(&b));
    set.remove(&a);
    assert!(!set.contains(&a));
    assert!(set.contains(&b));
    set.remove(&a);
    assert!(set.contains(&b));
    set.remove(&b);
    assert!(!set.contains(&b));
}
