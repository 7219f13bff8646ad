//! Proof-of-work consensus core: seal verification over an epoch-keyed
//! memory-hard puzzle, epoch key resolution over a header store, a
//! weak-subjectivity fork-choice gate, the block import pipeline, and the
//! mining search with stale-work rejection.
pub mod difficulty;
pub mod seal;
pub mod crypto;
pub mod chain;
pub mod error;
pub mod algorithm;
pub mod fork_choice;
pub mod import;
pub mod mining;
pub mod flags;

pub use algorithm::{RandomXAlgorithm, RandomXAlgorithmVersion};
pub use chain::key_hash;
pub use difficulty::is_valid_hash;
pub use error::Error;
pub use flags::{InherentDataProvidersBuilder, RandomxFlag};
pub use mining::{mine, Stats};
