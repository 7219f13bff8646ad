use crain_pow::algorithm::{ComputeMode, PuzzleHash};
use crain_pow::chain::{EnvironmentError, Header};
use crain_pow::error::{ComputeError, ConsensusError};
use crain_pow::fork_choice::{ExponentialWeakSubjectiveAlgorithm, WeakSubjectiveForkChoice};
use crain_pow::import::{ImportBlock, PowBlockImport};
use crain_pow::{mine, Error, RandomXAlgorithmVersion};
use rand::SeedableRng;
use sp_core::Pair;

struct Blake2Puzzle;

impl PuzzleHash for Blake2Puzzle {
    fn work(&self, key_hash: &[u8; 32], input: &[u8], _mode: ComputeMode) -> Result<[u8; 32], ComputeError> {
        let mut data = key_hash.to_vec();
        data.extend_from_slice(input);
        Ok(sp_core::blake2_256(&data))
    }
}

fn from_u128(v: u128) -> [u8; 32] {
    let mut out = [0u8; 32];
    out[16..].copy_from_slice(&v.to_be_bytes());
    out
}

fn genesis() -> Header {
    Header { hash: [1u8; 32], number: 0, parent_hash: [0u8; 32], timestamp: 0, total_work: [0u8; 32] }
}

fn pipeline(enabled: bool, check_inherents_after: u64) -> PowBlockImport<Blake2Puzzle> {
    let rule = WeakSubjectiveForkChoice::new(ExponentialWeakSubjectiveAlgorithm::new(2, 30).unwrap(), enabled, 0);
    PowBlockImport::new(genesis(), Blake2Puzzle, RandomXAlgorithmVersion::V2, rule, check_inherents_after)
}

fn pair() -> sp_core::sr25519::Pair {
    sp_core::sr25519::Pair::from_seed(&[21u8; 32])
}

fn block(imp: &PowBlockImport<Blake2Puzzle>, id: u8, parent: [u8; 32], number: u64, difficulty: u128) -> ImportBlock {
    let author = pair().public().0.to_vec();
    let pre_hash = [id; 32];
    let mut rng = rand::rngs::SmallRng::seed_from_u64(id as u64);
    let seal = mine(imp.store(), &Blake2Puzzle, &mut rng, &pair(), &parent, &pre_hash, Some(&author), &from_u128(difficulty), 5000)
        .unwrap()
        .unwrap();
    ImportBlock {
        hash: [id; 32],
        number,
        parent_hash: parent,
        timestamp: number * 1000,
        pre_hash,
        pre_digest: Some(author),
        seal,
        difficulty: from_u128(difficulty),
    }
}

#[test]
fn block_on_best_becomes_best() {
    let mut imp = pipeline(true, 0);
    let b = block(&imp, 10, [1u8; 32], 1, 1);
    assert_eq!(imp.import(&b, 0), Ok(true));
    let best = imp.best();
    assert_eq!(best.hash, [10u8; 32]);
    assert_eq!(best.number, 1);
    assert_eq!(best.total_work, from_u128(1));
    assert_eq!(imp.store().len(), 2);
}

#[test]
fn failed_import_changes_nothing() {
    let mut imp = pipeline(true, 0);
    let mut b = block(&imp, 10, [1u8; 32], 1, 1);
    let n = b.seal.len();
    b.seal[n - 1] ^= 0x80;
    assert_eq!(imp.import(&b, 0), Err(Error::Consensus(ConsensusError::InvalidSeal)));
    assert_eq!(imp.store().len(), 1);
    assert_eq!(imp.best(), genesis());
}

#[test]
fn decode_stage_refusals() {
    let mut imp = pipeline(true, 0);
    let b = block(&imp, 10, [1u8; 32], 1, 1);
    let orphan = ImportBlock { parent_hash: [77u8; 32], ..block(&imp, 11, [1u8; 32], 1, 1) };
    assert_eq!(imp.import(&orphan, 0), Err(Error::Environment(EnvironmentError::HeaderNotFound([77u8; 32]))));
    let misnumbered = ImportBlock { number: 2, ..block(&imp, 12, [1u8; 32], 1, 1) };
    assert_eq!(imp.import(&misnumbered, 0), Err(Error::Consensus(ConsensusError::BadNumber)));
    assert_eq!(imp.import(&b, 0), Ok(true));
    assert_eq!(imp.import(&b, 0), Err(Error::Consensus(ConsensusError::AlreadyImported)));
    assert_eq!(imp.store().len(), 2);
}

#[test]
fn timestamps_must_increase_past_threshold() {
    let mut imp = pipeline(true, 0);
    let b = ImportBlock { timestamp: 0, ..block(&imp, 10, [1u8; 32], 1, 1) };
    assert_eq!(imp.import(&b, 0), Err(Error::Consensus(ConsensusError::TimestampNotIncreasing)));
    let mut old_chain = pipeline(true, 5);
    let b = ImportBlock { timestamp: 0, ..block(&old_chain, 10, [1u8; 32], 1, 1) };
    assert_eq!(old_chain.import(&b, 0), Ok(true));
}

fn main_chain(imp: &mut PowBlockImport<Blake2Puzzle>) {
    let mut parent = [1u8; 32];
    for n in 1..=3u64 {
        let id = 30 + n as u8;
        let b = block(imp, id, parent, n, 1);
        assert_eq!(imp.import(&b, 0), Ok(true));
        parent = [id; 32];
    }
}

#[test]
fn deep_reorg_is_refused_even_with_more_work() {
    let mut imp = pipeline(true, 0);
    main_chain(&mut imp);
    let fork = block(&imp, 50, [1u8; 32], 1, 16);
    assert_eq!(imp.import(&fork, 0), Err(Error::Consensus(ConsensusError::ReorgTooDeep)));
    assert_eq!(imp.best().hash, [33u8; 32]);
    assert_eq!(imp.store().len(), 4);
}

#[test]
fn shallow_reorg_with_more_work_is_taken() {
    let mut imp = pipeline(true, 0);
    main_chain(&mut imp);
    // 30 s after the checkpoint the bound is 2: a fork off block 1 retracts 2.
    let fork = block(&imp, 51, [31u8; 32], 2, 16);
    assert_eq!(imp.import(&fork, 30), Ok(true));
    assert_eq!(imp.best().hash, [51u8; 32]);
    assert_eq!(imp.best().total_work, from_u128(17));
}

#[test]
fn disabled_rule_takes_deep_reorg() {
    let mut imp = pipeline(false, 0);
    main_chain(&mut imp);
    let fork = block(&imp, 52, [1u8; 32], 1, 16);
    assert_eq!(imp.import(&fork, 0), Ok(true));
    assert_eq!(imp.best().hash, [52u8; 32]);
}

#[test]
fn lighter_fork_is_stored_but_not_best() {
    let mut imp = pipeline(true, 0);
    main_chain(&mut imp);
    let fork = block(&imp, 53, [32u8; 32], 3, 1);
    assert_eq!(imp.import(&fork, 0), Ok(false));
    assert_eq!(imp.best().hash, [33u8; 32]);
    assert_eq!(imp.store().len(), 5);
}
