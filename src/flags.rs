//! Node options that the consensus core reads.
use vstd::prelude::*;

verus! {

/// A flag of the puzzle engine.
#[derive(Clone, Copy, Debug, PartialEq, Eq)]
pub enum RandomxFlag {
    LargePages,
    Secure,
}

/// Whether two strings hold the same characters.
fn str_equals(s: &str, lit: &str) -> (r: bool)
    ensures
        r == (s@ == lit@),
{
    let n = s.unicode_len();
    let m = lit.unicode_len();
    if n != m {
        return false;
    }
    let mut i: usize = 0;
    while i < n
        invariant
            n == s@.len(),
            m == lit@.len(),
            n == m,
            i <= n,
            forall|j: int| 0 <= j < i ==> s@[j] == lit@[j],
        decreases n - i,
    {
        if s.get_char(i) != lit.get_char(i) {
            return false;
        }
        i = i + 1;
    }
    assert(s@ =~= lit@);
    true
}

/// The flag that a command-line word names.
pub open spec fn flag_named(s: Seq<char>) -> Option<RandomxFlag> {
    if s == "large-pages"@ {
        Some(RandomxFlag::LargePages)
    } else if s == "secure"@ {
        Some(RandomxFlag::Secure)
    } else {
        None
    }
}

/// Parses a flag: `large-pages` or `secure`.
pub fn parse_randomx_flag(s: &str) -> (r: Result<RandomxFlag, String>)
    ensures
        match flag_named(s@) {
            Some(f) => r == Ok::<RandomxFlag, String>(f),
            None => r is Err,
        },
{
    if str_equals(s, "large-pages") {
        Ok(RandomxFlag::LargePages)
    } else if str_equals(s, "secure") {
        Ok(RandomxFlag::Secure)
    } else {
        Err("Unknown flag".to_owned())
    }
}

impl std::str::FromStr for RandomxFlag {
    type Err = String;

    fn from_str(s: &str) -> Result<Self, String> {
        parse_randomx_flag(s)
    }
}

/// Provides the inherent data that a new block carries: its timestamp.
pub struct InherentDataProvidersBuilder;

impl InherentDataProvidersBuilder {
    /// The timestamp inherent for a block authored at `now_ms`, the system
    /// time in milliseconds.
    pub fn create_inherent_data_providers(&self, now_ms: u64) -> (r: u64)
        ensures
            r == now_ms,
    {
        now_ms
    }
}

} // verus!
