//! Seal verification and the tie-break between competing seals.
use crate::chain::{key_hash, spec_key_hash, HeaderStore};
use crate::crypto::{blake2_256, blake2_256_of, bytes_greater, lex_greater, sr25519_verifies, sr25519_verify};
use crate::difficulty::{is_valid_hash, meets_difficulty, Difficulty, H256};
use crate::error::{ComputeError, Error};
use crate::seal::{input_seal, seal_bytes, seal_decoding, signing_bytes, signing_message, ComputeInput, Seal};
use std::sync::Arc;
use vstd::prelude::*;

verus! {

/// How the puzzle engine prepares for a key: a long-lived cache and dataset
/// for mining, or the cache alone for verification. Both give the same work.
#[derive(Clone, Copy, Debug, PartialEq, Eq)]
pub enum ComputeMode {
    Sync,
    Mining,
}

/// The memory-hard puzzle function, keyed by an epoch key.
///
/// Implementations hash the canonical puzzle input under the key and hand
/// back the work, or the engine fault that stopped them.
pub trait PuzzleHash {
    fn work(&self, key_hash: &H256, input: &[u8], mode: ComputeMode) -> Result<H256, ComputeError>;
}

/// The seal format that the chain uses.
#[derive(Clone, Copy, Debug, PartialEq, Eq)]
pub enum RandomXAlgorithmVersion {
    /// Legacy: nonce only.
    V1,
    /// Nonce signed by the block's author.
    V2,
}

/// The proof-of-work algorithm over a chain store.
pub struct RandomXAlgorithm<C> {
    client: Arc<C>,
    version: RandomXAlgorithmVersion,
}

/// The author key of a pre-digest: its first 32 bytes.
pub open spec fn author_of(pre_digest: Seq<u8>) -> Option<Seq<u8>> {
    if pre_digest.len() >= 32 {
        Some(pre_digest.subrange(0, 32))
    } else {
        None
    }
}

/// Reads the author key from a pre-digest.
pub fn pre_digest_author(pre_digest: &[u8]) -> (r: Option<[u8; 32]>)
    ensures
        match r {
            Some(a) => author_of(pre_digest@) == Some(a@),
            None => author_of(pre_digest@) is None,
        },
{
    if pre_digest.len() < 32 {
        return None;
    }
    let mut a = [0u8; 32];
    let mut i: usize = 0;
    while i < 32
        invariant
            i <= 32,
            pre_digest@.len() >= 32,
            forall|j: int| 0 <= j < i ==> a[j] == pre_digest@[j],
        decreases 32 - i,
    {
        a[i] = pre_digest[i];
        i = i + 1;
    }
    assert(a@ =~= pre_digest@.subrange(0, 32));
    Some(a)
}

/// The puzzle input that a seal claims, if the seal decodes in the given
/// version and, for `V2`, its signature verifies under the pre-digest's author.
pub open spec fn claimed_input(
    version: RandomXAlgorithmVersion,
    seal: Seq<u8>,
    pre_digest: Option<Seq<u8>>,
    key_hash: H256,
    pre_hash: H256,
    difficulty: Difficulty,
) -> Option<ComputeInput> {
    match (version, seal_decoding(seal)) {
        (RandomXAlgorithmVersion::V1, Some(Seal::V1 { nonce })) => Some(
            ComputeInput { key_hash, difficulty, pre_hash, nonce, signature: None },
        ),
        (RandomXAlgorithmVersion::V2, Some(Seal::V2 { nonce, signature })) => match pre_digest {
            Some(d) => match author_of(d) {
                Some(author) => if sr25519_verifies(
                    signature@,
                    signing_bytes(key_hash@, pre_hash@, nonce@),
                    author,
                ) {
                    Some(ComputeInput { key_hash, difficulty, pre_hash, nonce, signature: Some(signature) })
                } else {
                    None
                },
                None => None,
            },
            None => None,
        },
        _ => None,
    }
}

/// The option of a byte slice, as a sequence.
pub open spec fn opt_view(o: Option<&[u8]>) -> Option<Seq<u8>> {
    match o {
        Some(s) => Some(s@),
        None => None,
    }
}

/// Decodes a seal and checks its signature: the puzzle input to recompute,
/// or `None` where the seal is already refused.
pub fn claimed_compute_input(
    version: RandomXAlgorithmVersion,
    seal: &[u8],
    pre_digest: Option<&[u8]>,
    key_hash: &H256,
    pre_hash: &H256,
    difficulty: &Difficulty,
) -> (r: Option<ComputeInput>)
    ensures
        r == claimed_input(version, seal@, opt_view(pre_digest), *key_hash, *pre_hash, *difficulty),
{
    let decoded = Seal::decode(seal);
    match (version, decoded) {
        (RandomXAlgorithmVersion::V1, Some(Seal::V1 { nonce })) => Some(
            ComputeInput {
                key_hash: *key_hash,
                difficulty: *difficulty,
                pre_hash: *pre_hash,
                nonce,
                signature: None,
            },
        ),
        (RandomXAlgorithmVersion::V2, Some(Seal::V2 { nonce, signature })) => {
            let d = match pre_digest {
                Some(d) => d,
                None => return None,
            };
            let author = match pre_digest_author(d) {
                Some(a) => a,
                None => return None,
            };
            let message = signing_message(key_hash, pre_hash, &nonce);
            if sr25519_verify(&signature, message.as_slice(), &author) {
                Some(
                    ComputeInput {
                        key_hash: *key_hash,
                        difficulty: *difficulty,
                        pre_hash: *pre_hash,
                        nonce,
                        signature: Some(signature),
                    },
                )
            } else {
                None
            }
        },
        _ => None,
    }
}

/// Whether two seals are the same, byte for byte.
pub fn seals_equal(a: &Seal, b: &Seal) -> (r: bool)
    ensures
        r == (seal_bytes(*a) == seal_bytes(*b)),
{
    let x = a.encode();
    let y = b.encode();
    if x.len() != y.len() {
        return false;
    }
    let mut i: usize = 0;
    while i < x.len()
        invariant
            x@ == seal_bytes(*a),
            y@ == seal_bytes(*b),
            x@.len() == y@.len(),
            i <= x@.len(),
            forall|j: int| 0 <= j < i ==> x@[j] == y@[j],
        decreases x@.len() - i,
    {
        if x[i] != y[i] {
            return false;
        }
        i = i + 1;
    }
    assert(x@ =~= y@);
    true
}

/// The verdict on recomputed work: the seal rebuilt from the puzzle input must
/// equal the claimed seal, and the work must meet the difficulty.
pub fn judge_work(input: &ComputeInput, claimed: &Seal, work: &H256) -> (r: bool)
    ensures
        r == (seal_bytes(input_seal(*input)) == seal_bytes(*claimed) && meets_difficulty(work@, input.difficulty@)),
{
    let computed = input.seal();
    if !seals_equal(&computed, claimed) {
        return false;
    }
    is_valid_hash(work, &input.difficulty)
}

/// What `verify_seal` is known to return, whatever the puzzle computes: a
/// store fault where the epoch key cannot be resolved, `false` where the seal
/// does not decode or its signature fails, and otherwise a verdict or an
/// engine fault.
pub open spec fn seal_verdict_allowed(
    s: Seq<crate::chain::Header>,
    version: RandomXAlgorithmVersion,
    parent: H256,
    pre_hash: H256,
    pre_digest: Option<Seq<u8>>,
    seal: Seq<u8>,
    difficulty: Difficulty,
    r: Result<bool, Error>,
) -> bool {
    match spec_key_hash(s, parent) {
        Err(e) => r == Err::<bool, Error>(Error::Environment(e)),
        Ok(k) => match claimed_input(version, seal, pre_digest, k, pre_hash, difficulty) {
            None => r == Ok::<bool, Error>(false),
            Some(input) => seal_bytes(input_seal(input)) == seal && (r is Err ==> r->Err_0 is Compute),
        },
    }
}

/// Verifies a seal against the chain in `store`: resolves the epoch key of
/// `parent`, checks the seal's form and signature, recomputes the work with
/// `puzzle` and judges it.
pub fn verify_seal<P: PuzzleHash>(
    store: &HeaderStore,
    puzzle: &P,
    version: RandomXAlgorithmVersion,
    parent: &H256,
    pre_hash: &H256,
    pre_digest: Option<&[u8]>,
    seal: &[u8],
    difficulty: &Difficulty,
) -> (r: Result<bool, Error>)
    ensures
        seal_verdict_allowed(store@, version, *parent, *pre_hash, opt_view(pre_digest), seal@, *difficulty, r),
{
    let key = match key_hash(store, parent) {
        Ok(k) => k,
        Err(e) => return Err(Error::Environment(e)),
    };
    let input = match claimed_compute_input(version, seal, pre_digest, &key, pre_hash, difficulty) {
        Some(i) => i,
        None => return Ok(false),
    };
    let claimed = match Seal::decode(seal) {
        Some(s) => s,
        None => return Ok(false),
    };
    let bytes = input.encode();
    let work = match puzzle.work(&key, bytes.as_slice(), ComputeMode::Sync) {
        Ok(w) => w,
        Err(e) => return Err(Error::Compute(e)),
    };
    Ok(judge_work(&input, &claimed, &work))
}

impl<C> RandomXAlgorithm<C> {
    /// The algorithm over the given chain store, with `V2` seals.
    pub fn new(client: Arc<C>) -> (r: Self)
        ensures
            r.client() == client,
            r.version() == RandomXAlgorithmVersion::V2,
    {
        RandomXAlgorithm { client, version: RandomXAlgorithmVersion::V2 }
    }

    pub closed spec fn client(&self) -> Arc<C> {
        self.client
    }

    pub closed spec fn version(&self) -> RandomXAlgorithmVersion {
        self.version
    }

    /// The seal format in use.
    pub fn seal_version(&self) -> (r: RandomXAlgorithmVersion)
        ensures
            r == self.version(),
    {
        self.version
    }

    /// The same algorithm over the same store, with the legacy `V1` seals.
    pub fn legacy(&self) -> (r: Self)
        ensures
            r.client() == self.client(),
            r.version() == RandomXAlgorithmVersion::V1,
    {
        RandomXAlgorithm { client: self.client.clone(), version: RandomXAlgorithmVersion::V1 }
    }

    /// Whether the own seal wins a tie against a new seal at the same height:
    /// the one with the lexicographically greater Blake2 digest is preferred.
    pub fn break_tie(&self, own_seal: &[u8], new_seal: &[u8]) -> (r: bool)
        ensures
            r == lex_greater(blake2_256_of(own_seal@), blake2_256_of(new_seal@)),
    {
        tie_break(own_seal, new_seal)
    }
}

impl<C> Clone for RandomXAlgorithm<C> {
    fn clone(&self) -> (r: Self)
        ensures
            r.client() == self.client(),
            r.version() == self.version(),
    {
        RandomXAlgorithm { client: self.client.clone(), version: self.version }
    }
}

/// Whether `own_seal` wins a tie against `new_seal`: the seal with the
/// lexicographically greater Blake2 digest is preferred.
pub fn tie_break(own_seal: &[u8], new_seal: &[u8]) -> (r: bool)
    ensures
        r == lex_greater(blake2_256_of(own_seal@), blake2_256_of(new_seal@)),
{
    let a = blake2_256(own_seal);
    let b = blake2_256(new_seal);
    bytes_greater(&a, &b)
}

/// The tie-break is antisymmetric: of two seals whose digests differ, exactly
/// one wins against the other.
pub proof fn lemma_tie_break_antisymmetric(a: Seq<u8>, b: Seq<u8>)
    requires
        blake2_256_of(a) != blake2_256_of(b),
    ensures
        lex_greater(blake2_256_of(a), blake2_256_of(b)) != lex_greater(blake2_256_of(b), blake2_256_of(a)),
{
    crate::crypto::lemma_lex_greater_antisymmetric(blake2_256_of(a), blake2_256_of(b));
}

impl RandomXAlgorithm<HeaderStore> {
    /// Verifies a seal for a child of `parent`; see `verify_seal`.
    pub fn verify<P: PuzzleHash>(
        &self,
        puzzle: &P,
        parent: &H256,
        pre_hash: &H256,
        pre_digest: Option<&[u8]>,
        seal: &[u8],
        difficulty: &Difficulty,
    ) -> (r: Result<bool, Error>)
        ensures
            seal_verdict_allowed(
                self.client()@,
                self.version(),
                *parent,
                *pre_hash,
                opt_view(pre_digest),
                seal@,
                *difficulty,
                r,
            ),
    {
        verify_seal(&*self.client, puzzle, self.version, parent, pre_hash, pre_digest, seal, difficulty)
    }
}

} // verus!
