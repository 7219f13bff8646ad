use crain_pow::algorithm::{ComputeMode, PuzzleHash};
use crain_pow::chain::{Header, HeaderStore};
use crain_pow::error::{ComputeError, ConsensusError};
use crain_pow::mining::{accept_trial, search, MiningMetadata, MiningWorker, RejectReason};
use crain_pow::seal::{ComputeInput, Seal};
use crain_pow::{mine, Error, RandomXAlgorithm, RandomXAlgorithmVersion, Stats};
use rand::SeedableRng;
use sp_core::Pair;
use std::sync::Arc;

struct Blake2Puzzle;

impl PuzzleHash for Blake2Puzzle {
    fn work(&self, key_hash: &[u8; 32], input: &[u8], _mode: ComputeMode) -> Result<[u8; 32], ComputeError> {
        let mut data = key_hash.to_vec();
        data.extend_from_slice(input);
        Ok(sp_core::blake2_256(&data))
    }
}

struct ColdCache;

impl PuzzleHash for ColdCache {
    fn work(&self, _key_hash: &[u8; 32], _input: &[u8], _mode: ComputeMode) -> Result<[u8; 32], ComputeError> {
        Err(ComputeError::CacheNotAvailable)
    }
}

fn from_u128(v: u128) -> [u8; 32] {
    let mut out = [0u8; 32];
    out[16..].copy_from_slice(&v.to_be_bytes());
    out
}

fn store() -> HeaderStore {
    let mut s = HeaderStore::new();
    s.insert(Header { hash: [1u8; 32], number: 0, parent_hash: [0u8; 32], timestamp: 0, total_work: [0u8; 32] });
    s
}

fn pair() -> sp_core::sr25519::Pair {
    sp_core::sr25519::Pair::from_seed(&[11u8; 32])
}

#[test]
fn search_with_unit_difficulty_finds_a_seal() {
    let mut rng = rand::rngs::SmallRng::seed_from_u64(1);
    let r = search(&Blake2Puzzle, &mut rng, &pair(), RandomXAlgorithmVersion::V2, &[1u8; 32], &[2u8; 32], &from_u128(1), ComputeMode::Mining, 1000);
    assert!(matches!(r, Ok(Some(Seal::V2 { .. }))));
}

#[test]
fn search_with_max_difficulty_finds_nothing() {
    let mut rng = rand::rngs::SmallRng::seed_from_u64(2);
    let r = search(&Blake2Puzzle, &mut rng, &pair(), RandomXAlgorithmVersion::V2, &[1u8; 32], &[2u8; 32], &[0xff; 32], ComputeMode::Mining, 1000);
    assert_eq!(r, Ok(None));
}

#[test]
fn search_with_zero_rounds_finds_nothing() {
    let mut rng = rand::rngs::SmallRng::seed_from_u64(3);
    let r = search(&Blake2Puzzle, &mut rng, &pair(), RandomXAlgorithmVersion::V2, &[1u8; 32], &[2u8; 32], &from_u128(1), ComputeMode::Sync, 0);
    assert_eq!(r, Ok(None));
}

#[test]
fn legacy_search_gives_v1_seals() {
    let mut rng = rand::rngs::SmallRng::seed_from_u64(4);
    let r = search(&Blake2Puzzle, &mut rng, &pair(), RandomXAlgorithmVersion::V1, &[1u8; 32], &[2u8; 32], &from_u128(1), ComputeMode::Mining, 5);
    assert!(matches!(r, Ok(Some(Seal::V1 { .. }))));
}

#[test]
fn engine_fault_is_passed_on() {
    let mut rng = rand::rngs::SmallRng::seed_from_u64(5);
    let r = search(&ColdCache, &mut rng, &pair(), RandomXAlgorithmVersion::V2, &[1u8; 32], &[2u8; 32], &from_u128(1), ComputeMode::Mining, 10);
    assert_eq!(r, Err(ComputeError::CacheNotAvailable));
    let author = pair().public().0.to_vec();
    let r = mine(&store(), &ColdCache, &mut rng, &pair(), &[1u8; 32], &[2u8; 32], Some(&author), &from_u128(1), 10);
    assert_eq!(r, Err(Error::Compute(ComputeError::CacheNotAvailable)));
}

#[test]
fn accept_trial_keeps_only_valid_work() {
    let input = ComputeInput { key_hash: [0u8; 32], difficulty: from_u128(256), pre_hash: [0u8; 32], nonce: [8u8; 32], signature: Some([1u8; 64]) };
    let mut low = [0u8; 32];
    low[1] = 0xff;
    assert_eq!(accept_trial(&input, &low), Some(Seal::V2 { nonce: [8u8; 32], signature: [1u8; 64] }));
    let mut high = [0u8; 32];
    high[0] = 1;
    assert_eq!(accept_trial(&input, &high), None);
}

#[test]
fn mine_needs_an_author_pre_digest() {
    let mut rng = rand::rngs::SmallRng::seed_from_u64(6);
    let r = mine(&store(), &Blake2Puzzle, &mut rng, &pair(), &[1u8; 32], &[2u8; 32], None, &from_u128(1), 10);
    assert_eq!(r, Err(Error::Consensus(ConsensusError::MissingPreDigest)));
    let r = mine(&store(), &Blake2Puzzle, &mut rng, &pair(), &[1u8; 32], &[2u8; 32], Some(&[0u8; 5]), &from_u128(1), 10);
    assert_eq!(r, Err(Error::Consensus(ConsensusError::BadPreDigest)));
    let r = mine(&store(), &Blake2Puzzle, &mut rng, &pair(), &[7u8; 32], &[2u8; 32], None, &from_u128(1), 10);
    assert!(matches!(r, Err(Error::Environment(_))));
}

fn metadata(best: u8) -> MiningMetadata {
    MiningMetadata { best_hash: [best; 32], pre_hash: [2u8; 32], pre_runtime: Some(pair().public().0.to_vec()), difficulty: from_u128(1) }
}

#[test]
fn worker_hands_out_the_latest_snapshot() {
    let mut worker = MiningWorker::new();
    assert_eq!(worker.metadata(), None);
    worker.on_new_head(metadata(1));
    assert_eq!(worker.metadata(), Some(metadata(1)));
    worker.on_new_head(metadata(3));
    assert_eq!(worker.metadata(), Some(metadata(3)));
}

#[test]
fn stale_seal_is_rejected_though_valid() {
    let mut worker = MiningWorker::new();
    assert_eq!(worker.submit(&metadata(1), &[]), Err(RejectReason::NoMetadata));
    worker.on_new_head(metadata(1));
    let snapshot = worker.metadata().unwrap();
    let author = snapshot.pre_runtime.clone().unwrap();
    let mut rng = rand::rngs::SmallRng::seed_from_u64(7);
    let seal = mine(&store(), &Blake2Puzzle, &mut rng, &pair(), &snapshot.best_hash, &snapshot.pre_hash, Some(&author), &snapshot.difficulty, 1000)
        .unwrap()
        .unwrap();
    assert_eq!(worker.submit(&snapshot, &seal), Ok(()));

    worker.on_new_head(MiningMetadata { best_hash: [9u8; 32], ..metadata(1) });
    assert_eq!(worker.submit(&snapshot, &seal), Err(RejectReason::Stale));
    let algorithm = RandomXAlgorithm::new(Arc::new(store()));
    let alone = algorithm.verify(&Blake2Puzzle, &snapshot.best_hash, &snapshot.pre_hash, Some(&author), &seal, &snapshot.difficulty);
    assert_eq!(alone, Ok(true));
}

#[test]
fn any_changed_field_makes_work_stale() {
    let mut worker = MiningWorker::new();
    let base = metadata(1);
    worker.on_new_head(MiningMetadata { pre_hash: [5u8; 32], ..metadata(1) });
    assert_eq!(worker.submit(&base, &[]), Err(RejectReason::Stale));
    worker.on_new_head(MiningMetadata { pre_runtime: None, ..metadata(1) });
    assert_eq!(worker.submit(&base, &[]), Err(RejectReason::Stale));
    worker.on_new_head(MiningMetadata { difficulty: from_u128(2), ..metadata(1) });
    assert_eq!(worker.submit(&base, &[]), Err(RejectReason::Stale));
    worker.on_new_head(metadata(1));
    assert_eq!(worker.submit(&base, &[]), Ok(()));
    assert!(base.same_as(&metadata(1)));
}

#[test]
fn stats_start_now() {
    let _stats = Stats::new();
}
