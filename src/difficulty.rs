//! 256-bit proof-of-work targets: a hash meets a difficulty when their
//! product, as unbounded integers, still fits in 256 bits.
use vstd::arithmetic::power2::{lemma2_to64, lemma_pow2_adds, lemma_pow2_pos, pow2};
use vstd::prelude::*;

verus! {

/// A 256-bit hash, read as a big-endian unsigned integer where it is compared.
pub type H256 = [u8; 32];

/// A 256-bit big-endian unsigned difficulty; larger is harder.
pub type Difficulty = [u8; 32];

/// The unsigned integer that a big-endian byte string denotes.
pub open spec fn be_value(s: Seq<u8>) -> nat
    decreases s.len(),
{
    if s.len() == 0 {
        0
    } else {
        be_value(s.drop_last()) * 256 + s.last() as nat
    }
}

/// `2^256`, the first value that no longer fits in 256 bits.
pub open spec fn word_limit() -> nat {
    pow2(256)
}

/// A hash meets a difficulty when `hash * difficulty < 2^256`.
pub open spec fn meets_difficulty(hash: Seq<u8>, difficulty: Seq<u8>) -> bool {
    be_value(hash) * be_value(difficulty) < word_limit()
}

/// Relies on sp_core::U256 (the `uint` crate): `From<&[u8]>` reads big-endian
/// bytes, and `overflowing_mul` flags a product that does not fit in 256 bits.
#[verifier::external_body]
fn product_overflows(a: &[u8; 32], b: &[u8; 32]) -> (r: bool)
    ensures
        r == (be_value(a@) * be_value(b@) >= word_limit()),
{
    let x = sp_core::U256::from(&a[..]);
    let y = sp_core::U256::from(&b[..]);
    x.overflowing_mul(y).1
}

/// Relies on the `Ord` of sp_core::U256 (the `uint` crate) over values read
/// big-endian: whether the first value exceeds the second.
#[verifier::external_body]
fn value_exceeds(a: &[u8; 32], b: &[u8; 32]) -> (r: bool)
    ensures
        r == (be_value(a@) > be_value(b@)),
{
    sp_core::U256::from(&a[..]) > sp_core::U256::from(&b[..])
}

/// Relies on sp_core::U256 (the `uint` crate): `checked_add` gives the sum
/// where it fits in 256 bits, and `to_big_endian` writes it back as bytes.
#[verifier::external_body]
fn checked_add_values(a: &[u8; 32], b: &[u8; 32]) -> (r: Option<[u8; 32]>)
    ensures
        match r {
            Some(s) => be_value(s@) == be_value(a@) + be_value(b@),
            None => be_value(a@) + be_value(b@) >= word_limit(),
        },
{
    let sum = sp_core::U256::from(&a[..]).checked_add(sp_core::U256::from(&b[..]));
    sum.map(|v| {
        let mut out = [0u8; 32];
        v.to_big_endian(&mut out);
        out
    })
}

/// Whether the cumulative work `a` is strictly greater than `b`.
pub fn work_greater(a: &[u8; 32], b: &[u8; 32]) -> (r: bool)
    ensures
        r == (be_value(a@) > be_value(b@)),
{
    value_exceeds(a, b)
}

/// Adds a block's difficulty to a cumulative work; `None` where the sum does
/// not fit in 256 bits.
pub fn add_work(total: &[u8; 32], difficulty: &Difficulty) -> (r: Option<[u8; 32]>)
    ensures
        match r {
            Some(s) => be_value(s@) == be_value(total@) + be_value(difficulty@),
            None => be_value(total@) + be_value(difficulty@) >= word_limit(),
        },
{
    checked_add_values(total, difficulty)
}

/// Checks whether the given hash is within the given difficulty.
pub fn is_valid_hash(hash: &H256, difficulty: &Difficulty) -> (r: bool)
    ensures
        r == meets_difficulty(hash@, difficulty@),
{
    !product_overflows(hash, difficulty)
}

/// A big-endian string of `n` bytes denotes a value below `2^(8n)`.
pub proof fn lemma_be_value_bound(s: Seq<u8>)
    ensures
        be_value(s) < pow2(8 * s.len()),
    decreases s.len(),
{
    if s.len() == 0 {
        lemma2_to64();
    } else {
        let init = s.drop_last();
        let n = init.len();
        lemma_be_value_bound(init);
        lemma_pow2_adds(8 * n, 8);
        lemma2_to64();
        assert(8 * s.len() == 8 * n + 8);
        let v = be_value(init);
        let p = pow2(8 * n);
        let last = s.last() as nat;
        assert(v * 256 + last < p * 256) by (nonlinear_arith)
            requires
                v < p,
                last < 256,
        ;
    }
}

/// Under the unit difficulty every 256-bit hash is valid.
pub proof fn lemma_unit_difficulty_accepts_every_hash(hash: H256, difficulty: Difficulty)
    requires
        be_value(difficulty@) == 1,
    ensures
        meets_difficulty(hash@, difficulty@),
{
    lemma_be_value_bound(hash@);
}

/// Under the largest difficulty, `2^256 - 1`, only the hashes 0 and 1 are valid.
pub proof fn lemma_max_difficulty_accepts_only_zero_and_one(hash: H256, difficulty: Difficulty)
    requires
        be_value(difficulty@) == word_limit() - 1,
    ensures
        meets_difficulty(hash@, difficulty@) <==> be_value(hash@) <= 1,
{
    lemma_pow2_adds(128, 128);
    lemma_pow2_pos(128);
    let m = word_limit();
    let h = be_value(hash@);
    assert(m >= 4) by {
        lemma2_to64();
        lemma_pow2_adds(64, 64);
        assert(pow2(128) == pow2(64) * pow2(64));
        assert(pow2(64) >= 2);
        assert(pow2(128) >= 4) by (nonlinear_arith)
            requires
                pow2(128) == pow2(64) * pow2(64),
                pow2(64) >= 2,
        ;
        assert(m >= 4) by (nonlinear_arith)
            requires
                m == pow2(128) * pow2(128),
                pow2(128) >= 4,
        ;
    }
    if h <= 1 {
        assert(h * (m - 1) < m) by (nonlinear_arith)
            requires
                h <= 1,
                m >= 4,
        ;
    } else {
        assert(h * (m - 1) >= m) by (nonlinear_arith)
            requires
                h >= 2,
                m >= 4,
        ;
    }
}

} // verus!
