//! The library's error taxonomy.
use crate::chain::EnvironmentError;
use vstd::prelude::*;

verus! {

/// A fault of the puzzle engine.
#[derive(Clone, Copy, Debug, PartialEq, Eq)]
pub enum ComputeError {
    /// The cache for the epoch key is not ready yet: retry after a short pause.
    CacheNotAvailable,
    /// The cache could not be allocated: retry after a long pause.
    CacheAllocationFailed,
    /// Any other fault of the engine.
    Other,
}

/// Why a block or a mining request was refused.
#[derive(Clone, Copy, Debug, PartialEq, Eq)]
pub enum ConsensusError {
    /// Mining needs the author's pre-digest, and none was given.
    MissingPreDigest,
    /// The pre-digest does not hold an author key.
    BadPreDigest,
    /// The seal does not prove the work.
    InvalidSeal,
    /// The block's number is not one above its parent's.
    BadNumber,
    /// The block is already in the store.
    AlreadyImported,
    /// The block's timestamp does not follow its parent's.
    TimestampNotIncreasing,
    /// The fork point lies deeper than weak subjectivity permits.
    ReorgTooDeep,
    /// The block's cumulative work does not fit in 256 bits.
    WorkOverflow,
}

/// Any failure of the consensus core.
#[derive(Clone, Copy, Debug, PartialEq, Eq)]
pub enum Error {
    Environment(EnvironmentError),
    Consensus(ConsensusError),
    Compute(ComputeError),
}

} // verus!
