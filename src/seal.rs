//! The seal wire format and the canonical puzzle input.
use crate::difficulty::{Difficulty, H256};
use vstd::prelude::*;

verus! {

/// The proof-of-work payload of a block header.
///
/// `V1` is the legacy format, kept so that old blocks still decode; `V2` binds
/// the miner's identity through a signature.
#[derive(PartialEq, Eq, Clone, Copy, Debug)]
pub enum Seal {
    V1 { nonce: H256 },
    V2 { nonce: H256, signature: [u8; 64] },
}

/// Tag byte of a `V1` seal on the wire.
pub const SEAL_V1_TAG: u8 = 0;

/// Tag byte of a `V2` seal on the wire.
pub const SEAL_V2_TAG: u8 = 1;

/// The wire form of a seal: its tag, the 32-byte nonce, and for `V2` the
/// 64-byte signature.
pub open spec fn seal_bytes(s: Seal) -> Seq<u8> {
    match s {
        Seal::V1 { nonce } => seq![SEAL_V1_TAG] + nonce@,
        Seal::V2 { nonce, signature } => seq![SEAL_V2_TAG] + nonce@ + signature@,
    }
}

/// What decoding a byte string yields: the seal whose wire form it is, if any.
pub open spec fn seal_decoding(b: Seq<u8>) -> Option<Seal> {
    if exists|s: Seal| seal_bytes(s) == b {
        Some(choose|s: Seal| seal_bytes(s) == b)
    } else {
        None
    }
}

/// Two seals with the same wire form are the same seal.
pub proof fn lemma_seal_bytes_injective(a: Seal, b: Seal)
    requires
        seal_bytes(a) == seal_bytes(b),
    ensures
        a == b,
{
    let x = seal_bytes(a);
    let y = seal_bytes(b);
    assert(x[0] == y[0]);
    match (a, b) {
        (Seal::V1 { nonce: n1 }, Seal::V1 { nonce: n2 }) => {
            assert forall|i: int| 0 <= i < 32 implies n1[i] == n2[i] by {
                assert(x[i + 1] == y[i + 1]);
            }
            assert(n1 =~= n2);
        },
        (Seal::V2 { nonce: n1, signature: s1 }, Seal::V2 { nonce: n2, signature: s2 }) => {
            assert forall|i: int| 0 <= i < 32 implies n1[i] == n2[i] by {
                assert(x[i + 1] == y[i + 1]);
            }
            assert forall|i: int| 0 <= i < 64 implies s1[i] == s2[i] by {
                assert(x[i + 33] == y[i + 33]);
            }
            assert(n1 =~= n2);
            assert(s1 =~= s2);
        },
        _ => {},
    }
}

/// Encoding a seal and decoding the bytes gives the same seal back, the
/// signature included.
pub proof fn lemma_seal_round_trip(s: Seal)
    ensures
        seal_decoding(seal_bytes(s)) == Some(s),
{
    let b = seal_bytes(s);
    assert(exists|t: Seal| seal_bytes(t) == b);
    let t = choose|t: Seal| seal_bytes(t) == b;
    lemma_seal_bytes_injective(s, t);
}

/// Appends the bytes of `b` to `v`.
pub fn push_bytes(v: &mut Vec<u8>, b: &[u8])
    ensures
        final(v)@ == old(v)@ + b@,
{
    let mut i: usize = 0;
    while i < b.len()
        invariant
            i <= b@.len(),
            v@ == old(v)@ + b@.subrange(0, i as int),
        decreases b@.len() - i,
    {
        v.push(b[i]);
        i = i + 1;
        assert(b@.subrange(0, i as int) =~= b@.subrange(0, i - 1) + seq![b@[i - 1]]);
    }
    assert(b@.subrange(0, b@.len() as int) =~= b@);
}

/// Copies 32 bytes of `b` from `start` into an array.
fn read_32(b: &[u8], start: usize) -> (r: [u8; 32])
    requires
        start + 32 <= b.len(),
    ensures
        r@ == b@.subrange(start as int, start + 32),
{
    let mut r = [0u8; 32];
    let mut i: usize = 0;
    while i < 32
        invariant
            i <= 32,
            start + 32 <= b.len(),
            r@.len() == 32,
            forall|j: int| 0 <= j < i ==> r@[j] == b@[start + j],
        decreases 32 - i,
    {
        r[i] = b[start + i];
        i = i + 1;
    }
    assert(r@ =~= b@.subrange(start as int, start + 32));
    r
}

/// Copies 64 bytes of `b` from `start` into an array.
fn read_64(b: &[u8], start: usize) -> (r: [u8; 64])
    requires
        start + 64 <= b.len(),
    ensures
        r@ == b@.subrange(start as int, start + 64),
{
    let mut r = [0u8; 64];
    let mut i: usize = 0;
    while i < 64
        invariant
            i <= 64,
            start + 64 <= b.len(),
            r@.len() == 64,
            forall|j: int| 0 <= j < i ==> r@[j] == b@[start + j],
        decreases 64 - i,
    {
        r[i] = b[start + i];
        i = i + 1;
    }
    assert(r@ =~= b@.subrange(start as int, start + 64));
    r
}

impl Seal {
    /// The wire form of the seal.
    pub fn encode(&self) -> (r: Vec<u8>)
        ensures
            r@ == seal_bytes(*self),
    {
        let mut v: Vec<u8> = Vec::new();
        match self {
            Seal::V1 { nonce } => {
                v.push(SEAL_V1_TAG);
                push_bytes(&mut v, nonce);
            },
            Seal::V2 { nonce, signature } => {
                v.push(SEAL_V2_TAG);
                push_bytes(&mut v, nonce);
                push_bytes(&mut v, signature);
            },
        }
        v
    }

    /// Decodes a seal; bytes that are not exactly the wire form of a seal
    /// give `None`.
    pub fn decode(b: &[u8]) -> (r: Option<Seal>)
        ensures
            r == seal_decoding(b@),
    {
        if b.len() == 33 && b[0] == SEAL_V1_TAG {
            let s = Seal::V1 { nonce: read_32(b, 1) };
            proof {
                assert(seal_bytes(s) =~= b@);
                lemma_seal_round_trip(s);
            }
            Some(s)
        } else if b.len() == 97 && b[0] == SEAL_V2_TAG {
            let s = Seal::V2 { nonce: read_32(b, 1), signature: read_64(b, 33) };
            proof {
                assert(seal_bytes(s) =~= b@);
                lemma_seal_round_trip(s);
            }
            Some(s)
        } else {
            assert forall|s: Seal| seal_bytes(s) != b@ by {
                if seal_bytes(s) == b@ {
                    assert(seal_bytes(s)[0] == b@[0]);
                }
            }
            None
        }
    }
}

/// The input of the memory-hard puzzle for one nonce.
#[derive(PartialEq, Eq, Clone, Copy, Debug)]
pub struct ComputeInput {
    pub key_hash: H256,
    pub difficulty: Difficulty,
    pub pre_hash: H256,
    pub nonce: H256,
    pub signature: Option<[u8; 64]>,
}

/// The canonical fixed-layout form of a puzzle input:
/// key hash, difficulty, pre-hash, nonce, and the signature where there is one.
pub open spec fn input_bytes(c: ComputeInput) -> Seq<u8> {
    let head = c.key_hash@ + c.difficulty@ + c.pre_hash@ + c.nonce@;
    match c.signature {
        Some(sig) => head + sig@,
        None => head,
    }
}

/// The message that a `V2` miner signs: key hash, pre-hash and nonce.
pub open spec fn signing_bytes(key_hash: Seq<u8>, pre_hash: Seq<u8>, nonce: Seq<u8>) -> Seq<u8> {
    key_hash + pre_hash + nonce
}

/// Builds the message that a `V2` miner signs.
pub fn signing_message(key_hash: &H256, pre_hash: &H256, nonce: &H256) -> (r: Vec<u8>)
    ensures
        r@ == signing_bytes(key_hash@, pre_hash@, nonce@),
{
    let mut v: Vec<u8> = Vec::new();
    push_bytes(&mut v, key_hash);
    push_bytes(&mut v, pre_hash);
    push_bytes(&mut v, nonce);
    v
}

/// The seal that a puzzle input stands for: its nonce, and its signature
/// where there is one.
pub open spec fn input_seal(c: ComputeInput) -> Seal {
    match c.signature {
        Some(sig) => Seal::V2 { nonce: c.nonce, signature: sig },
        None => Seal::V1 { nonce: c.nonce },
    }
}

impl ComputeInput {
    /// The canonical encoding that the puzzle hashes.
    pub fn encode(&self) -> (r: Vec<u8>)
        ensures
            r@ == input_bytes(*self),
    {
        let mut v: Vec<u8> = Vec::new();
        push_bytes(&mut v, &self.key_hash);
        push_bytes(&mut v, &self.difficulty);
        push_bytes(&mut v, &self.pre_hash);
        push_bytes(&mut v, &self.nonce);
        match &self.signature {
            Some(sig) => push_bytes(&mut v, sig),
            None => {},
        }
        v
    }

    /// The seal that this input stands for.
    pub fn seal(&self) -> (r: Seal)
        ensures
            r == input_seal(*self),
    {
        match self.signature {
            Some(sig) => Seal::V2 { nonce: self.nonce, signature: sig },
            None => Seal::V1 { nonce: self.nonce },
        }
    }
}

} // verus!
