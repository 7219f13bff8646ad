//! Hashing and signatures, through sp-core.
use vstd::prelude::*;

verus! {

/// A sr25519 key pair of sp-core, held opaquely.
#[verifier::external_type_specification]
#[verifier::external_body]
pub struct ExSr25519Pair(sp_core::sr25519::Pair);

/// The 256-bit Blake2b digest of a byte string.
pub uninterp spec fn blake2_256_of(data: Seq<u8>) -> Seq<u8>;

/// Whether a 64-byte sr25519 signature over a message verifies under a
/// 32-byte public key.
pub uninterp spec fn sr25519_verifies(signature: Seq<u8>, message: Seq<u8>, public: Seq<u8>) -> bool;

/// Relies on sp_core::blake2_256: the 32-byte Blake2b digest of the data,
/// which depends on the data alone.
#[verifier::external_body]
pub(crate) fn blake2_256(data: &[u8]) -> (r: [u8; 32])
    ensures
        r@ == blake2_256_of(data@),
{
    sp_core::blake2_256(data)
}

/// Relies on `Pair::verify` of sp_core::sr25519: whether the signature verifies,
/// which depends on the signature, the message and the key alone.
#[verifier::external_body]
pub(crate) fn sr25519_verify(signature: &[u8; 64], message: &[u8], public: &[u8; 32]) -> (r: bool)
    ensures
        r == sr25519_verifies(signature@, message@, public@),
{
    let sig = sp_core::sr25519::Signature::from_raw(*signature);
    let key = sp_core::sr25519::Public::from_raw(*public);
    <sp_core::sr25519::Pair as sp_core::Pair>::verify(&sig, message, &key)
}

/// Relies on `Pair::sign` of sp_core::sr25519: a 64-byte signature of the
/// message. Signing may draw randomness, so nothing more is stated.
#[verifier::external_body]
pub(crate) fn sr25519_sign(pair: &sp_core::sr25519::Pair, message: &[u8]) -> (r: [u8; 64]) {
    <sp_core::sr25519::Pair as sp_core::Pair>::sign(pair, message).0
}

/// Lexicographic order on byte strings: `x` is greater than `y` at the first
/// byte where they differ, or when `y` is a proper prefix of `x`.
pub open spec fn lex_greater(x: Seq<u8>, y: Seq<u8>) -> bool
    decreases x.len(),
{
    if x.len() == 0 {
        false
    } else if y.len() == 0 {
        true
    } else if x[0] != y[0] {
        x[0] > y[0]
    } else {
        lex_greater(x.drop_first(), y.drop_first())
    }
}

/// Of two different byte strings exactly one is the greater.
pub proof fn lemma_lex_greater_antisymmetric(x: Seq<u8>, y: Seq<u8>)
    requires
        x != y,
    ensures
        lex_greater(x, y) != lex_greater(y, x),
    decreases x.len(),
{
    if x.len() == 0 {
        assert(y.len() != 0) by {
            if y.len() == 0 {
                assert(x =~= y);
            }
        }
    } else if y.len() != 0 && x[0] == y[0] {
        assert(x.drop_first() != y.drop_first()) by {
            if x.drop_first() == y.drop_first() {
                assert(x =~= seq![x[0]] + x.drop_first());
                assert(y =~= seq![y[0]] + y.drop_first());
            }
        }
        lemma_lex_greater_antisymmetric(x.drop_first(), y.drop_first());
    }
}

/// Whether `a` is lexicographically greater than `b`.
pub fn bytes_greater(a: &[u8; 32], b: &[u8; 32]) -> (r: bool)
    ensures
        r == lex_greater(a@, b@),
{
    let mut i: usize = 0;
    assert(a@.subrange(0, 32) =~= a@);
    assert(b@.subrange(0, 32) =~= b@);
    while i < 32
        invariant
            i <= 32,
            a@.len() == 32,
            b@.len() == 32,
            lex_greater(a@, b@) == lex_greater(a@.subrange(i as int, 32), b@.subrange(i as int, 32)),
        decreases 32 - i,
    {
        proof {
            let x = a@.subrange(i as int, 32);
            let y = b@.subrange(i as int, 32);
            assert(x.drop_first() =~= a@.subrange(i + 1, 32));
            assert(y.drop_first() =~= b@.subrange(i + 1, 32));
        }
        if a[i] != b[i] {
            return a[i] > b[i];
        }
        i = i + 1;
    }
    assert(a@.subrange(32, 32).len() == 0);
    false
}

} // verus!
