//! The block import pipeline: decode, verify the seal, check inherents, pass
//! the fork-choice gate, commit. A failing stage leaves the state untouched.
use crate::algorithm::{opt_view, seal_verdict_allowed, verify_seal, PuzzleHash, RandomXAlgorithmVersion};
use crate::chain::{find_header, hashes_equal, lemma_find_after_push, EnvironmentError, Header, HeaderStore};
use crate::difficulty::{add_work, be_value, lemma_be_value_bound, word_limit, Difficulty, H256};
use crate::error::{ConsensusError, Error};
use crate::fork_choice::{fork_decision, WeakSubjectiveForkChoice};
use vstd::prelude::*;

verus! {

/// A block offered for import, as the consensus core reads it.
pub struct ImportBlock {
    pub hash: H256,
    pub number: u64,
    pub parent_hash: H256,
    /// The timestamp inherent, in milliseconds.
    pub timestamp: u64,
    /// The hash of the header without its seal.
    pub pre_hash: H256,
    /// The author pre-digest.
    pub pre_digest: Option<Vec<u8>>,
    /// The encoded seal.
    pub seal: Vec<u8>,
    /// The difficulty that the runtime sets for a child of the parent.
    pub difficulty: Difficulty,
}

/// The author pre-digest of a block, as a sequence.
pub open spec fn block_pre_digest(b: &ImportBlock) -> Option<Seq<u8>> {
    match b.pre_digest {
        Some(v) => Some(v@),
        None => None,
    }
}

/// The common ancestor of `a` and `b`, found by stepping back the higher of
/// the two through parent links.
pub open spec fn fork_point(s: Seq<Header>, a: Header, b: Header) -> Result<Header, EnvironmentError>
    decreases a.number + b.number,
{
    if a.hash == b.hash {
        Ok(a)
    } else if a.number >= b.number {
        match find_header(s, a.parent_hash) {
            None => Err(EnvironmentError::HeaderNotFound(a.parent_hash)),
            Some(p) => if p.number + 1 == a.number {
                fork_point(s, p, b)
            } else {
                Err(EnvironmentError::BrokenAncestry(a.parent_hash))
            },
        }
    } else {
        match find_header(s, b.parent_hash) {
            None => Err(EnvironmentError::HeaderNotFound(b.parent_hash)),
            Some(p) => if p.number + 1 == b.number {
                fork_point(s, a, p)
            } else {
                Err(EnvironmentError::BrokenAncestry(b.parent_hash))
            },
        }
    }
}

/// The header of `b`, one step back through its parent link.
fn step_back(store: &HeaderStore, b: &Header) -> (r: Result<Header, EnvironmentError>)
    ensures
        match find_header(store@, b.parent_hash) {
            None => r == Err::<Header, EnvironmentError>(EnvironmentError::HeaderNotFound(b.parent_hash)),
            Some(p) => if p.number + 1 == b.number {
                r == Ok::<Header, EnvironmentError>(p)
            } else {
                r == Err::<Header, EnvironmentError>(EnvironmentError::BrokenAncestry(b.parent_hash))
            },
        },
{
    match store.header(&b.parent_hash) {
        None => Err(EnvironmentError::HeaderNotFound(b.parent_hash)),
        Some(p) => {
            if p.number < b.number && p.number + 1 == b.number {
                Ok(p)
            } else {
                Err(EnvironmentError::BrokenAncestry(b.parent_hash))
            }
        },
    }
}

/// How many blocks of the chain ending at `best` a chain through `other`
/// would retract: `best`'s height above their common ancestor.
pub fn reorg_depth(store: &HeaderStore, best: &Header, other: &Header) -> (r: Result<u64, EnvironmentError>)
    ensures
        match fork_point(store@, *best, *other) {
            Ok(f) => f.number <= best.number && r == Ok::<u64, EnvironmentError>((best.number - f.number) as u64),
            Err(e) => r == Err::<u64, EnvironmentError>(e),
        },
{
    let mut a = *best;
    let mut b = *other;
    while !hashes_equal(&a.hash, &b.hash)
        invariant
            a.number <= best.number,
            fork_point(store@, *best, *other) == fork_point(store@, a, b),
        decreases a.number + b.number,
    {
        if a.number >= b.number {
            a = step_back(store, &a)?;
        } else {
            b = step_back(store, &b)?;
        }
    }
    Ok(best.number - a.number)
}

/// The outcome of importing `b` onto the chain `s` whose best block is
/// `best`, with `verdict` from seal verification: the error of the earliest
/// check that refuses the block, or whether the block becomes the new best.
pub open spec fn import_outcome(
    s: Seq<Header>,
    best: Header,
    enabled: bool,
    bound: u64,
    check_inherents_after: u64,
    b: &ImportBlock,
    verdict: Result<bool, Error>,
) -> Result<bool, Error> {
    match find_header(s, b.parent_hash) {
        None => Err(Error::Environment(EnvironmentError::HeaderNotFound(b.parent_hash))),
        Some(parent) => if find_header(s, b.hash) is Some {
            Err(Error::Consensus(ConsensusError::AlreadyImported))
        } else if parent.number + 1 != b.number {
            Err(Error::Consensus(ConsensusError::BadNumber))
        } else {
            match verdict {
                Err(e) => Err(e),
                Ok(false) => Err(Error::Consensus(ConsensusError::InvalidSeal)),
                Ok(true) => if b.number >= check_inherents_after && b.timestamp <= parent.timestamp {
                    Err(Error::Consensus(ConsensusError::TimestampNotIncreasing))
                } else if be_value(parent.total_work@) + be_value(b.difficulty@) >= word_limit() {
                    Err(Error::Consensus(ConsensusError::WorkOverflow))
                } else {
                    match fork_point(s, best, parent) {
                        Err(e) => Err(Error::Environment(e)),
                        Ok(f) => match fork_decision(
                            enabled,
                            bound,
                            (best.number - f.number) as u64,
                            be_value(best.total_work@),
                            be_value(parent.total_work@) + be_value(b.difficulty@),
                        ) {
                            Err(e) => Err(Error::Consensus(e)),
                            Ok(is_best) => Ok(is_best),
                        },
                    }
                },
            }
        },
    }
}

/// The header that an imported block is stored under.
pub open spec fn committed_header(h: Header, b: &ImportBlock, parent_work: Seq<u8>) -> bool {
    &&& h.hash == b.hash
    &&& h.number == b.number
    &&& h.parent_hash == b.parent_hash
    &&& h.timestamp == b.timestamp
    &&& be_value(h.total_work@) == be_value(parent_work) + be_value(b.difficulty@)
}

/// The import pipeline over a header store.
pub struct PowBlockImport<P> {
    store: HeaderStore,
    best: H256,
    puzzle: P,
    version: RandomXAlgorithmVersion,
    fork_choice: WeakSubjectiveForkChoice,
    check_inherents_after: u64,
}

impl<P: PuzzleHash> PowBlockImport<P> {
    pub closed spec fn chain(&self) -> Seq<Header> {
        self.store@
    }

    pub closed spec fn best_hash(&self) -> H256 {
        self.best
    }

    pub closed spec fn version(&self) -> RandomXAlgorithmVersion {
        self.version
    }

    pub closed spec fn fork_choice(&self) -> &WeakSubjectiveForkChoice {
        &self.fork_choice
    }

    pub closed spec fn check_inherents_after(&self) -> u64 {
        self.check_inherents_after
    }

    /// The best block's header.
    pub open spec fn best_header(&self) -> Header {
        find_header(self.chain(), self.best_hash())->Some_0
    }

    /// The best block is stored and the fork choice is well formed.
    pub open spec fn wf(&self) -> bool {
        &&& find_header(self.chain(), self.best_hash()) is Some
        &&& self.fork_choice().wf()
    }

    /// The pipeline over a chain holding only `genesis`.
    pub fn new(
        genesis: Header,
        puzzle: P,
        version: RandomXAlgorithmVersion,
        fork_choice: WeakSubjectiveForkChoice,
        check_inherents_after: u64,
    ) -> (r: Self)
        requires
            fork_choice.wf(),
        ensures
            r.wf(),
            r.chain() == seq![genesis],
            r.best_hash() == genesis.hash,
            r.version() == version,
            *r.fork_choice() == fork_choice,
            r.check_inherents_after() == check_inherents_after,
    {
        let mut store = HeaderStore::new();
        store.insert(genesis);
        assert(store@ =~= seq![genesis]);
        PowBlockImport { store, best: genesis.hash, puzzle, version, fork_choice, check_inherents_after }
    }

    /// The header store.
    pub fn store(&self) -> (r: &HeaderStore)
        ensures
            r@ == self.chain(),
    {
        &self.store
    }

    /// The best block's header.
    pub fn best(&self) -> (r: Header)
        requires
            self.wf(),
        ensures
            r == self.best_header(),
    {
        self.store.header(&self.best).unwrap()
    }

    /// Runs the stages after seal verification on `b`, with the verdict that
    /// verification gave, at time `now`; commits the block where every stage
    /// passes.
    pub fn import_with_verdict(&mut self, b: &ImportBlock, now: u64, verdict: Result<bool, Error>) -> (r: Result<bool, Error>)
        requires
            old(self).wf(),
        ensures
            final(self).wf(),
            final(self).version() == old(self).version(),
            final(self).fork_choice() == old(self).fork_choice(),
            final(self).check_inherents_after() == old(self).check_inherents_after(),
            r == import_outcome(
                old(self).chain(),
                old(self).best_header(),
                old(self).fork_choice().enabled(),
                old(self).fork_choice().bound_at(now),
                old(self).check_inherents_after(),
                b,
                verdict,
            ),
            r is Err ==> final(self).chain() == old(self).chain() && final(self).best_hash() == old(self).best_hash(),
            r is Ok ==> {
                &&& final(self).chain().len() == old(self).chain().len() + 1
                &&& final(self).chain().drop_last() == old(self).chain()
                &&& committed_header(
                    final(self).chain().last(),
                    b,
                    find_header(old(self).chain(), b.parent_hash)->Some_0.total_work@,
                )
                &&& final(self).best_hash() == if r == Ok::<bool, Error>(true) {
                    b.hash
                } else {
                    old(self).best_hash()
                }
            },
    {
        let parent = match self.store.header(&b.parent_hash) {
            Some(p) => p,
            None => return Err(Error::Environment(EnvironmentError::HeaderNotFound(b.parent_hash))),
        };
        if self.store.header(&b.hash).is_some() {
            return Err(Error::Consensus(ConsensusError::AlreadyImported));
        }
        if parent.number >= u64::MAX || parent.number + 1 != b.number {
            return Err(Error::Consensus(ConsensusError::BadNumber));
        }
        match verdict {
            Err(e) => return Err(e),
            Ok(false) => return Err(Error::Consensus(ConsensusError::InvalidSeal)),
            Ok(true) => {},
        }
        if b.number >= self.check_inherents_after && b.timestamp <= parent.timestamp {
            return Err(Error::Consensus(ConsensusError::TimestampNotIncreasing));
        }
        let total_work = match add_work(&parent.total_work, &b.difficulty) {
            Some(w) => w,
            None => return Err(Error::Consensus(ConsensusError::WorkOverflow)),
        };
        proof {
            lemma_be_value_bound(total_work@);
        }
        let best = self.best();
        let depth = match reorg_depth(&self.store, &best, &parent) {
            Ok(d) => d,
            Err(e) => return Err(Error::Environment(e)),
        };
        let is_best = match self.fork_choice.decide(now, depth, &best.total_work, &total_work) {
            Ok(x) => x,
            Err(e) => return Err(Error::Consensus(e)),
        };
        let header = Header {
            hash: b.hash,
            number: b.number,
            parent_hash: b.parent_hash,
            timestamp: b.timestamp,
            total_work,
        };
        let ghost before = self.store@;
        self.store.insert(header);
        proof {
            lemma_find_after_push(before, header, self.best);
            assert(self.store@.drop_last() =~= before);
        }
        if is_best {
            self.best = b.hash;
            proof {
                lemma_find_after_push(before, header, b.hash);
            }
        }
        Ok(is_best)
    }

    /// Imports a block at time `now`: verifies its seal, then runs the
    /// remaining stages; see `import_with_verdict`.
    pub fn import(&mut self, b: &ImportBlock, now: u64) -> (r: Result<bool, Error>)
        requires
            old(self).wf(),
        ensures
            final(self).wf(),
            exists|verdict: Result<bool, Error>|
                {
                    &&& seal_verdict_allowed(
                        old(self).chain(),
                        old(self).version(),
                        b.parent_hash,
                        b.pre_hash,
                        block_pre_digest(b),
                        b.seal@,
                        b.difficulty,
                        verdict,
                    )
                    &&& r == import_outcome(
                        old(self).chain(),
                        old(self).best_header(),
                        old(self).fork_choice().enabled(),
                        old(self).fork_choice().bound_at(now),
                        old(self).check_inherents_after(),
                        b,
                        verdict,
                    )
                },
            r is Err ==> final(self).chain() == old(self).chain() && final(self).best_hash() == old(self).best_hash(),
            r is Ok ==> {
                &&& final(self).chain().drop_last() == old(self).chain()
                &&& committed_header(
                    final(self).chain().last(),
                    b,
                    find_header(old(self).chain(), b.parent_hash)->Some_0.total_work@,
                )
                &&& final(self).best_hash() == if r == Ok::<bool, Error>(true) {
                    b.hash
                } else {
                    old(self).best_hash()
                }
            },
    {
        let pre_digest = match &b.pre_digest {
            Some(v) => Some(v.as_slice()),
            None => None,
        };
        let verdict = verify_seal(
            &self.store,
            &self.puzzle,
            self.version,
            &b.parent_hash,
            &b.pre_hash,
            pre_digest,
            b.seal.as_slice(),
            &b.difficulty,
        );
        assert(opt_view(pre_digest) == block_pre_digest(b));
        self.import_with_verdict(b, now, verdict)
    }
}

} // verus!
