use crain_pow::chain::{key_number, EnvironmentError, Header, HeaderStore};
use crain_pow::key_hash;

fn hash_of(n: u64, fork: u8) -> [u8; 32] {
    let mut h = [0u8; 32];
    h[..8].copy_from_slice(&n.to_le_bytes());
    h[8] = fork;
    h[31] = 0xaa;
    h
}

fn header(n: u64) -> Header {
    Header {
        hash: hash_of(n, 0),
        number: n,
        parent_hash: if n == 0 { [0xee; 32] } else { hash_of(n - 1, 0) },
        timestamp: n * 1000,
        total_work: [0u8; 32],
    }
}

fn chain_up_to(top: u64) -> HeaderStore {
    let mut store = HeaderStore::new();
    // Newest first, so that lookups near the tip are quick.
    for n in (0..=top).rev() {
        assert!(store.insert(header(n)));
    }
    store
}

#[test]
fn key_number_follows_period_and_offset() {
    assert_eq!(key_number(0), 0);
    assert_eq!(key_number(127), 0);
    assert_eq!(key_number(4096 + 50), 0);
    assert_eq!(key_number(4096 + 127), 0);
    assert_eq!(key_number(4096 + 128), 4096);
    assert_eq!(key_number(4096 + 200), 4096);
    assert_eq!(key_number(3 * 4096 + 10), 2 * 4096);
}

#[test]
fn key_hash_near_boundary_rolls_back_one_period() {
    let store = chain_up_to(4096 + 50);
    assert_eq!(key_hash(&store, &hash_of(4096 + 50, 0)), Ok(hash_of(0, 0)));
}

#[test]
fn key_hash_past_offset_uses_new_epoch() {
    let store = chain_up_to(4096 + 200);
    assert_eq!(key_hash(&store, &hash_of(4096 + 200, 0)), Ok(hash_of(4096, 0)));
}

#[test]
fn key_hash_at_genesis_is_genesis() {
    let store = chain_up_to(3);
    assert_eq!(key_hash(&store, &hash_of(0, 0)), Ok(hash_of(0, 0)));
    assert_eq!(key_hash(&store, &hash_of(3, 0)), Ok(hash_of(0, 0)));
}

#[test]
fn key_hash_follows_parent_links_not_numbers() {
    let mut store = chain_up_to(4096 + 130);
    // A fork leaving the main chain at 4100 carries its own block 4096 + 129.
    let mut prev = hash_of(4100, 0);
    for n in 4101..=(4096 + 129) {
        let h = Header { hash: hash_of(n, 1), number: n, parent_hash: prev, timestamp: 0, total_work: [0u8; 32] };
        assert!(store.insert(h));
        prev = h.hash;
    }
    assert_eq!(key_hash(&store, &hash_of(4096 + 129, 1)), Ok(hash_of(4096, 0)));
}

#[test]
fn missing_ancestor_is_an_environment_error() {
    let mut store = HeaderStore::new();
    for n in 10..=20 {
        store.insert(header(n));
    }
    assert_eq!(key_hash(&store, &hash_of(20, 0)), Err(EnvironmentError::HeaderNotFound(hash_of(9, 0))));
    assert_eq!(key_hash(&store, &hash_of(99, 0)), Err(EnvironmentError::HeaderNotFound(hash_of(99, 0))));
}

#[test]
fn misnumbered_ancestor_is_an_environment_error() {
    let mut store = HeaderStore::new();
    store.insert(header(0));
    store.insert(Header { hash: hash_of(2, 0), number: 2, parent_hash: hash_of(0, 0), timestamp: 0, total_work: [0u8; 32] });
    assert_eq!(key_hash(&store, &hash_of(2, 0)), Err(EnvironmentError::BrokenAncestry(hash_of(0, 0))));
}

#[test]
fn duplicate_header_is_refused() {
    let mut store = HeaderStore::new();
    assert!(store.insert(header(1)));
    assert!(!store.insert(header(1)));
    assert_eq!(store.len(), 1);
    assert_eq!(store.header(&hash_of(1, 0)), Some(header(1)));
}
