//! Weak subjectivity: a bound on reorg depth that grows exponentially with
//! the time since the last trusted checkpoint.
use crate::difficulty::be_value;
use crate::difficulty::work_greater;
use crate::error::ConsensusError;
use vstd::arithmetic::power::{lemma0_pow, lemma1_pow, lemma_pow1, lemma_pow_adds, lemma_pow_increases, pow};
use vstd::prelude::*;

verus! {

/// `min(base^exp, u64::MAX)`.
pub open spec fn saturating_pow(base: u64, exp: nat) -> u64 {
    if pow(base as int, exp) > u64::MAX {
        u64::MAX
    } else {
        pow(base as int, exp) as u64
    }
}

/// The deepest permitted reorg after `elapsed` seconds: the growth rate raised
/// to the number of whole periods elapsed, saturating.
pub open spec fn spec_max_reorg_depth(growth_rate: u64, period: u64, elapsed: u64) -> u64 {
    saturating_pow(growth_rate, (elapsed / period) as nat)
}

/// The exponential weak-subjectivity bound: every `period` seconds since the
/// checkpoint multiply the permitted reorg depth by `growth_rate`.
pub struct ExponentialWeakSubjectiveAlgorithm {
    growth_rate: u64,
    period: u64,
}

impl ExponentialWeakSubjectiveAlgorithm {
    pub closed spec fn growth_rate(&self) -> u64 {
        self.growth_rate
    }

    pub closed spec fn period(&self) -> u64 {
        self.period
    }

    pub closed spec fn wf(&self) -> bool {
        self.period > 0
    }

    /// The bound with the given growth rate and period, in seconds; `None`
    /// where the period is zero.
    pub fn new(growth_rate: u64, period: u64) -> (r: Option<Self>)
        ensures
            match r {
                Some(a) => period > 0 && a.wf() && a.growth_rate() == growth_rate && a.period() == period,
                None => period == 0,
            },
    {
        if period == 0 {
            None
        } else {
            Some(ExponentialWeakSubjectiveAlgorithm { growth_rate, period })
        }
    }

    /// The deepest permitted reorg, `elapsed` seconds after the checkpoint.
    pub fn max_reorg_depth(&self, elapsed: u64) -> (r: u64)
        requires
            self.wf(),
        ensures
            r == spec_max_reorg_depth(self.growth_rate(), self.period(), elapsed),
    {
        let k = elapsed / self.period;
        let g = self.growth_rate;
        if g == 0 {
            if k == 0 {
                proof {
                    lemma_pow0_is_one(0);
                }
                return 1;
            } else {
                proof {
                    lemma0_pow(k as nat);
                }
                return 0;
            }
        }
        if g == 1 {
            proof {
                lemma1_pow(k as nat);
            }
            return 1;
        }
        let mut v: u64 = 1;
        let mut i: u64 = 0;
        proof {
            lemma_pow0_is_one(g as int);
        }
        while i < k
            invariant
                i <= k,
                g >= 2,
                g == self.growth_rate,
                v == pow(g as int, i as nat),
                k == elapsed / self.period,
            decreases k - i,
        {
            proof {
                lemma_pow_adds(g as int, i as nat, 1);
                lemma_pow1(g as int);
            }
            if v > u64::MAX / g {
                proof {
                    assert(g * v > u64::MAX) by (nonlinear_arith)
                        requires
                            v > u64::MAX / g,
                            g >= 2,
                    ;
                    assert(pow(g as int, (i + 1) as nat) == v * g);
                    assert(v * g == g * v) by (nonlinear_arith);
                    lemma_pow_increases(g as nat, (i + 1) as nat, k as nat);
                    assert(pow(g as int, k as nat) > u64::MAX);
                }
                return u64::MAX;
            }
            proof {
                assert(g * v <= u64::MAX) by (nonlinear_arith)
                    requires
                        v <= u64::MAX / g,
                        g >= 2,
                ;
            }
            proof {
                assert(pow(g as int, (i + 1) as nat) == v * g);
            }
            v = v * g;
            i = i + 1;
        }
        v
    }
}

/// `b^0 == 1`.
proof fn lemma_pow0_is_one(b: int)
    ensures
        pow(b, 0) == 1,
{
    vstd::arithmetic::power::lemma_pow0(b);
}

/// The fork-choice verdict on a candidate chain: an error where weak
/// subjectivity is on and the reorg is deeper than `bound`, else whether the
/// candidate has strictly more cumulative work.
pub open spec fn fork_decision(
    enabled: bool,
    bound: u64,
    reorg_depth: u64,
    best_work: nat,
    candidate_work: nat,
) -> Result<bool, ConsensusError> {
    if enabled && reorg_depth > bound {
        Err(ConsensusError::ReorgTooDeep)
    } else {
        Ok(candidate_work > best_work)
    }
}

/// The most-work fork choice, gated by weak subjectivity when enabled.
pub struct WeakSubjectiveForkChoice {
    algorithm: ExponentialWeakSubjectiveAlgorithm,
    enabled: bool,
    checkpoint_time: u64,
}

impl WeakSubjectiveForkChoice {
    pub closed spec fn algorithm(&self) -> &ExponentialWeakSubjectiveAlgorithm {
        &self.algorithm
    }

    pub closed spec fn enabled(&self) -> bool {
        self.enabled
    }

    pub closed spec fn checkpoint_time(&self) -> u64 {
        self.checkpoint_time
    }

    pub open spec fn wf(&self) -> bool {
        self.algorithm().wf()
    }

    /// The bound in force at time `now`.
    pub open spec fn bound_at(&self, now: u64) -> u64 {
        spec_max_reorg_depth(
            self.algorithm().growth_rate(),
            self.algorithm().period(),
            (if now >= self.checkpoint_time() { now - self.checkpoint_time() } else { 0 }) as u64,
        )
    }

    /// The fork choice with the given bound, switch, and checkpoint time.
    pub fn new(algorithm: ExponentialWeakSubjectiveAlgorithm, enabled: bool, checkpoint_time: u64) -> (r: Self)
        requires
            algorithm.wf(),
        ensures
            r.wf(),
            *r.algorithm() == algorithm,
            r.enabled() == enabled,
            r.checkpoint_time() == checkpoint_time,
    {
        WeakSubjectiveForkChoice { algorithm, enabled, checkpoint_time }
    }

    /// Decides on a candidate chain whose fork point lies `reorg_depth` blocks
    /// below the current best block, at time `now`.
    pub fn decide(&self, now: u64, reorg_depth: u64, best_work: &[u8; 32], candidate_work: &[u8; 32]) -> (r: Result<
        bool,
        ConsensusError,
    >)
        requires
            self.wf(),
        ensures
            r == fork_decision(
                self.enabled(),
                self.bound_at(now),
                reorg_depth,
                be_value(best_work@),
                be_value(candidate_work@),
            ),
    {
        if self.enabled {
            let elapsed = now.saturating_sub(self.checkpoint_time);
            let bound = self.algorithm.max_reorg_depth(elapsed);
            if reorg_depth > bound {
                return Err(ConsensusError::ReorgTooDeep);
            }
        }
        Ok(work_greater(candidate_work, best_work))
    }
}

/// A reorg deeper than the bound is refused even when the candidate has more
/// work; a reorg within the bound with more work is taken; with the rule
/// switched off, the deep reorg with more work is taken too.
pub proof fn lemma_weak_subjectivity_gate(
    bound: u64,
    reorg_depth: u64,
    best_work: nat,
    candidate_work: nat,
)
    requires
        candidate_work > best_work,
    ensures
        reorg_depth > bound ==> fork_decision(true, bound, reorg_depth, best_work, candidate_work)
            == Err::<bool, ConsensusError>(ConsensusError::ReorgTooDeep),
        reorg_depth <= bound ==> fork_decision(true, bound, reorg_depth, best_work, candidate_work)
            == Ok::<bool, ConsensusError>(true),
        fork_decision(false, bound, reorg_depth, best_work, candidate_work) == Ok::<bool, ConsensusError>(true),
{
}

} // verus!
