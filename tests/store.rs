use poe::fingerprint::{bytes_equal, copy_bytes};
use poe::{ClaimRecord, Fingerprint, Proofs};

#[test]
fn fingerprint_respects_bound() {
    let f = Fingerprint::try_new(vec![1, 2, 3], 3).ok().unwrap();
    assert_eq!(f.len(), 3);
    assert_eq!(f.as_bytes(), &vec![1, 2, 3]);
    assert_eq!(Fingerprint::try_new(vec![1, 2, 3, 4], 3).err(), Some(vec![1, 2, 3, 4]));
}

#[test]
fn fingerprints_compare_by_bytes() {
    let a = Fingerprint::try_new(vec![1, 2], 8).ok().unwrap();
    let b = Fingerprint::try_new(vec![1, 2], 8).ok().unwrap();
    let c = Fingerprint::try_new(vec![1, 2, 0], 8).ok().unwrap();
    assert!(a.same_as(&b));
    assert!(!a.same_as(&c));
    assert!(bytes_equal(&vec![], &vec![]));
    assert!(!bytes_equal(&vec![1], &vec![2]));
    assert_eq!(copy_bytes(&vec![5, 6, 7]), vec![5, 6, 7]);
}

#[test]
fn store_insert_get_remove() {
    let key = |b: Vec<u8>| Fingerprint::try_new(b, 16).ok().unwrap();
    let mut s = Proofs::new();
    assert!(!s.contains_key(&key(vec![1])));
    s.insert(key(vec![1]), ClaimRecord { owner: 1, timestamp: 1 });
    s.insert(key(vec![2]), ClaimRecord { owner: 2, timestamp: 2 });
    s.insert(key(vec![1]), ClaimRecord { owner: 3, timestamp: 3 });
    assert_eq!(s.get(&key(vec![1])), Some(ClaimRecord { owner: 3, timestamp: 3 }));
    assert_eq!(s.get(&key(vec![2])), Some(ClaimRecord { owner: 2, timestamp: 2 }));
    s.remove(&key(vec![1]));
    assert!(!s.contains_key(&key(vec![1])));
    assert!(s.contains_key(&key(vec![2])));
    s.remove(&key(vec![9]));
    assert!(s.contains_key(&key(vec![2])));
}
