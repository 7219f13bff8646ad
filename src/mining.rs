//! The nonce search and the worker that guards submissions against stale work.
use crate::algorithm::{author_of, pre_digest_author, opt_view, ComputeMode, PuzzleHash, RandomXAlgorithmVersion};
use crate::chain::{hashes_equal, key_hash, spec_key_hash, HeaderStore};
use crate::crypto::sr25519_sign;
use crate::difficulty::{be_value, is_valid_hash, lemma_unit_difficulty_accepts_every_hash, meets_difficulty, Difficulty, H256};
use crate::error::{ComputeError, ConsensusError, Error};
use crate::seal::{input_seal, seal_decoding, signing_message, ComputeInput, Seal};
use vstd::prelude::*;

verus! {

/// The small fast generator of rand, held opaquely.
#[verifier::external_type_specification]
#[verifier::external_body]
pub struct ExSmallRng(rand::rngs::SmallRng);

/// A point in time of std, held opaquely.
#[verifier::external_type_specification]
#[verifier::external_body]
pub struct ExInstant(std::time::Instant);

/// Relies on rand's `RngCore::fill_bytes`: 32 bytes drawn from the generator.
/// Nothing is stated of a random value.
#[verifier::external_body]
fn draw_nonce(rng: &mut rand::rngs::SmallRng) -> (r: H256) {
    let mut nonce = [0u8; 32];
    rand::RngCore::fill_bytes(rng, &mut nonce);
    nonce
}

/// Relies on `std::time::Instant::now`: the current time.
#[verifier::external_body]
fn instant_now() -> (r: std::time::Instant) {
    std::time::Instant::now()
}

/// Mining statistics.
pub struct Stats {
    _last_clear: std::time::Instant,
    _last_display: std::time::Instant,
    _round: u32,
}

impl Stats {
    pub closed spec fn round(&self) -> u32 {
        self._round
    }

    /// Statistics starting now, with no round counted.
    pub fn new() -> (r: Stats)
        ensures
            r.round() == 0,
    {
        Stats { _last_clear: instant_now(), _last_display: instant_now(), _round: 0 }
    }
}

/// Whether a seal has the form of the given version.
pub open spec fn seal_of_version(s: Seal, version: RandomXAlgorithmVersion) -> bool {
    match version {
        RandomXAlgorithmVersion::V1 => s is V1,
        RandomXAlgorithmVersion::V2 => s is V2,
    }
}

/// One trial: the seal of the input where its work meets the input's
/// difficulty, else `None`.
pub fn accept_trial(input: &ComputeInput, work: &H256) -> (r: Option<Seal>)
    ensures
        r == if meets_difficulty(work@, input.difficulty@) {
            Some(input_seal(*input))
        } else {
            None::<Seal>
        },
{
    if is_valid_hash(work, &input.difficulty) {
        Some(input.seal())
    } else {
        None
    }
}

/// Searches up to `round` random nonces for a seal whose work, computed by
/// `puzzle` under `key_hash` in `mode`, meets `difficulty`; the first found is
/// returned. For `V2` each nonce is signed with `pair` first.
pub fn search<P: PuzzleHash>(
    puzzle: &P,
    rng: &mut rand::rngs::SmallRng,
    pair: &sp_core::sr25519::Pair,
    version: RandomXAlgorithmVersion,
    key_hash: &H256,
    pre_hash: &H256,
    difficulty: &Difficulty,
    mode: ComputeMode,
    round: u32,
) -> (r: Result<Option<Seal>, ComputeError>)
    ensures
        round == 0 ==> r == Ok::<Option<Seal>, ComputeError>(None),
        round > 0 && be_value(difficulty@) == 1 ==> !(r == Ok::<Option<Seal>, ComputeError>(None)),
        r matches Ok(Some(s)) ==> seal_of_version(s, version),
{
    let mut i: u32 = 0;
    while i < round
        invariant
            i <= round,
            be_value(difficulty@) == 1 ==> i == 0,
        decreases round - i,
    {
        let nonce = draw_nonce(rng);
        let signature = match version {
            RandomXAlgorithmVersion::V1 => None,
            RandomXAlgorithmVersion::V2 => {
                let message = signing_message(key_hash, pre_hash, &nonce);
                Some(sr25519_sign(pair, message.as_slice()))
            },
        };
        let input = ComputeInput {
            key_hash: *key_hash,
            difficulty: *difficulty,
            pre_hash: *pre_hash,
            nonce,
            signature,
        };
        let bytes = input.encode();
        let work = match puzzle.work(key_hash, bytes.as_slice(), mode) {
            Ok(w) => w,
            Err(e) => return Err(e),
        };
        proof {
            if be_value(difficulty@) == 1 {
                lemma_unit_difficulty_accepts_every_hash(work, *difficulty);
            }
        }
        match accept_trial(&input, &work) {
            Some(seal) => return Ok(Some(seal)),
            None => {},
        }
        i = i + 1;
    }
    Ok(None)
}

/// Mines a `V2` seal for a child of `parent`: resolves the epoch key, reads
/// the author from the pre-digest, and searches `round` nonces signed with the
/// author's `pair`. Gives the encoded seal, or `None` where no nonce passed.
pub fn mine<P: PuzzleHash>(
    store: &HeaderStore,
    puzzle: &P,
    rng: &mut rand::rngs::SmallRng,
    pair: &sp_core::sr25519::Pair,
    parent: &H256,
    pre_hash: &H256,
    pre_digest: Option<&[u8]>,
    difficulty: &Difficulty,
    round: u32,
) -> (r: Result<Option<Vec<u8>>, Error>)
    ensures
        match spec_key_hash(store@, *parent) {
            Err(e) => r == Err::<Option<Vec<u8>>, Error>(Error::Environment(e)),
            Ok(_) => match opt_view(pre_digest) {
                None => r == Err::<Option<Vec<u8>>, Error>(Error::Consensus(ConsensusError::MissingPreDigest)),
                Some(d) => if author_of(d) is None {
                    r == Err::<Option<Vec<u8>>, Error>(Error::Consensus(ConsensusError::BadPreDigest))
                } else {
                    &&& (r is Err ==> r->Err_0 is Compute)
                    &&& (round == 0 ==> r matches Ok(None))
                    &&& (round > 0 && be_value(difficulty@) == 1 ==> !(r matches Ok(None)))
                    &&& (r matches Ok(Some(v)) ==> seal_decoding(v@) matches Some(Seal::V2 { .. }))
                },
            },
        },
{
    let key = match key_hash(store, parent) {
        Ok(k) => k,
        Err(e) => return Err(Error::Environment(e)),
    };
    let d = match pre_digest {
        Some(d) => d,
        None => return Err(Error::Consensus(ConsensusError::MissingPreDigest)),
    };
    if pre_digest_author(d).is_none() {
        return Err(Error::Consensus(ConsensusError::BadPreDigest));
    }
    match search(
        puzzle,
        rng,
        pair,
        RandomXAlgorithmVersion::V2,
        &key,
        pre_hash,
        difficulty,
        ComputeMode::Mining,
        round,
    ) {
        Err(e) => Err(Error::Compute(e)),
        Ok(None) => Ok(None),
        Ok(Some(seal)) => {
            let encoded = seal.encode();
            proof {
                crate::seal::lemma_seal_round_trip(seal);
            }
            Ok(Some(encoded))
        },
    }
}

/// What a miner mines against: a snapshot of the chain head, taken once per
/// change of the head.
#[derive(Clone, Debug, PartialEq, Eq)]
pub struct MiningMetadata {
    pub best_hash: H256,
    pub pre_hash: H256,
    pub pre_runtime: Option<Vec<u8>>,
    pub difficulty: Difficulty,
}

/// The pre-runtime digest of a snapshot, as a sequence.
pub open spec fn pre_runtime_view(m: &MiningMetadata) -> Option<Seq<u8>> {
    match m.pre_runtime {
        Some(v) => Some(v@),
        None => None,
    }
}

/// Two snapshots are the same when every field is.
pub open spec fn same_metadata(a: &MiningMetadata, b: &MiningMetadata) -> bool {
    &&& a.best_hash == b.best_hash
    &&& a.pre_hash == b.pre_hash
    &&& pre_runtime_view(a) == pre_runtime_view(b)
    &&& a.difficulty == b.difficulty
}

/// Whether two byte strings are equal.
fn bytes_equal(a: &[u8], b: &[u8]) -> (r: bool)
    ensures
        r == (a@ == b@),
{
    if a.len() != b.len() {
        return false;
    }
    let mut i: usize = 0;
    while i < a.len()
        invariant
            a@.len() == b@.len(),
            i <= a@.len(),
            forall|j: int| 0 <= j < i ==> a@[j] == b@[j],
        decreases a@.len() - i,
    {
        if a[i] != b[i] {
            return false;
        }
        i = i + 1;
    }
    assert(a@ =~= b@);
    true
}

/// Copies a byte vector.
fn copy_bytes(v: &Vec<u8>) -> (r: Vec<u8>)
    ensures
        r@ == v@,
{
    let mut out: Vec<u8> = Vec::new();
    crate::seal::push_bytes(&mut out, v.as_slice());
    out
}

impl MiningMetadata {
    /// Whether this snapshot is the same as `other`.
    pub fn same_as(&self, other: &MiningMetadata) -> (r: bool)
        ensures
            r == same_metadata(self, other),
    {
        if !hashes_equal(&self.best_hash, &other.best_hash) || !hashes_equal(&self.pre_hash, &other.pre_hash)
            || !hashes_equal(&self.difficulty, &other.difficulty) {
            return false;
        }
        match (&self.pre_runtime, &other.pre_runtime) {
            (Some(a), Some(b)) => bytes_equal(a.as_slice(), b.as_slice()),
            (None, None) => true,
            _ => false,
        }
    }

    /// A copy of this snapshot.
    pub fn snapshot(&self) -> (r: MiningMetadata)
        ensures
            same_metadata(&r, self),
    {
        let pre_runtime = match &self.pre_runtime {
            Some(v) => Some(copy_bytes(v)),
            None => None,
        };
        MiningMetadata {
            best_hash: self.best_hash,
            pre_hash: self.pre_hash,
            pre_runtime,
            difficulty: self.difficulty,
        }
    }
}

/// Why a mined seal was not taken.
#[derive(Clone, Copy, Debug, PartialEq, Eq)]
pub enum RejectReason {
    /// The worker has no snapshot yet.
    NoMetadata,
    /// The head changed since the seal was mined against its snapshot.
    Stale,
}

/// What a submission against `mined_against` gives while the worker holds
/// `current`: it goes on to import only where the snapshot is unchanged.
pub open spec fn submit_outcome(current: Option<MiningMetadata>, mined_against: &MiningMetadata) -> Result<
    (),
    RejectReason,
> {
    match current {
        None => Err(RejectReason::NoMetadata),
        Some(m) => if same_metadata(&m, mined_against) {
            Ok(())
        } else {
            Err(RejectReason::Stale)
        },
    }
}

/// The point where miners read the current snapshot and submit their seals.
pub struct MiningWorker {
    metadata: Option<MiningMetadata>,
}

impl MiningWorker {
    pub closed spec fn current(&self) -> Option<MiningMetadata> {
        self.metadata
    }

    /// A worker with no snapshot yet.
    pub fn new() -> (r: MiningWorker)
        ensures
            r.current() is None,
    {
        MiningWorker { metadata: None }
    }

    /// Replaces the snapshot on a change of the chain head.
    pub fn on_new_head(&mut self, metadata: MiningMetadata)
        ensures
            final(self).current() == Some(metadata),
    {
        self.metadata = Some(metadata);
    }

    /// The latest snapshot.
    pub fn metadata(&self) -> (r: Option<MiningMetadata>)
        ensures
            match (r, self.current()) {
                (Some(a), Some(b)) => same_metadata(&a, &b),
                (None, None) => true,
                _ => false,
            },
    {
        match &self.metadata {
            Some(m) => Some(m.snapshot()),
            None => None,
        }
    }

    /// Takes a seal mined against `mined_against` for import only where the
    /// current snapshot is still the same; else rejects it as stale.
    pub fn submit(&self, mined_against: &MiningMetadata, seal: &[u8]) -> (r: Result<(), RejectReason>)
        ensures
            r == submit_outcome(self.current(), mined_against),
    {
        match &self.metadata {
            None => Err(RejectReason::NoMetadata),
            Some(m) => {
                if m.same_as(mined_against) {
                    Ok(())
                } else {
                    Err(RejectReason::Stale)
                }
            },
        }
    }
}

/// Work mined against a snapshot is turned away once the head has moved on:
/// after a new head whose snapshot differs from the one mined against, the
/// submission is rejected as stale, whatever the seal and however valid.
pub proof fn lemma_stale_work_rejected(new_head: MiningMetadata, mined_against: MiningMetadata)
    requires
        !same_metadata(&new_head, &mined_against),
    ensures
        submit_outcome(Some(new_head), &mined_against) == Err::<(), RejectReason>(RejectReason::Stale),
{
}

} // verus!
