//! A hash-addressed header store and the epoch key resolution over it.
use crate::difficulty::H256;
use vstd::prelude::*;

verus! {

/// Blocks between two recomputations of the epoch key (about 2.8 days).
pub const PERIOD: u64 = 4096;

/// Blocks past an epoch boundary before its key is used (about 2 hours).
pub const OFFSET: u64 = 128;

/// What the consensus logic reads of a block header.
#[derive(Clone, Copy, Debug, PartialEq, Eq)]
pub struct Header {
    pub hash: H256,
    pub number: u64,
    pub parent_hash: H256,
    /// The block's timestamp inherent, in milliseconds.
    pub timestamp: u64,
    /// The sum of the difficulties from genesis to this block, big-endian.
    pub total_work: [u8; 32],
}

/// A fault of the chain store.
#[derive(Clone, Copy, Debug, PartialEq, Eq)]
pub enum EnvironmentError {
    /// No header with this hash is stored.
    HeaderNotFound(H256),
    /// The header stored under this hash is not numbered one below its child.
    BrokenAncestry(H256),
}

/// Headers addressed by hash; where two share a hash, the earlier one counts.
pub struct HeaderStore {
    headers: Vec<Header>,
}

/// The first header of `s` with the given hash.
pub open spec fn find_header(s: Seq<Header>, hash: H256) -> Option<Header>
    decreases s.len(),
{
    if s.len() == 0 {
        None
    } else if s[0].hash == hash {
        Some(s[0])
    } else {
        find_header(s.drop_first(), hash)
    }
}

/// Whether two hashes are the same.
pub fn hashes_equal(a: &H256, b: &H256) -> (r: bool)
    ensures
        r == (*a == *b),
{
    let mut i: usize = 0;
    while i < 32
        invariant
            i <= 32,
            forall|j: int| 0 <= j < i ==> a[j] == b[j],
        decreases 32 - i,
    {
        if a[i] != b[i] {
            return false;
        }
        i = i + 1;
    }
    assert(*a =~= *b);
    true
}

impl View for HeaderStore {
    type V = Seq<Header>;

    closed spec fn view(&self) -> Seq<Header> {
        self.headers@
    }
}

impl HeaderStore {
    /// An empty store.
    pub fn new() -> (r: HeaderStore)
        ensures
            r@ == Seq::<Header>::empty(),
    {
        HeaderStore { headers: Vec::new() }
    }

    /// The header stored under `hash`, if any.
    pub fn header(&self, hash: &H256) -> (r: Option<Header>)
        ensures
            r == find_header(self@, *hash),
    {
        let mut i: usize = 0;
        assert(self@.subrange(0, self@.len() as int) =~= self@);
        while i < self.headers.len()
            invariant
                i <= self@.len(),
                find_header(self@, *hash) == find_header(self@.subrange(i as int, self@.len() as int), *hash),
            decreases self@.len() - i,
        {
            proof {
                let rest = self@.subrange(i as int, self@.len() as int);
                assert(rest.drop_first() =~= self@.subrange(i + 1, self@.len() as int));
            }
            let h = self.headers[i];
            if hashes_equal(&h.hash, hash) {
                return Some(h);
            }
            i = i + 1;
        }
        None
    }

    /// Adds a header. A header whose hash is already stored is refused and the
    /// store is left as it was.
    pub fn insert(&mut self, h: Header) -> (r: bool)
        ensures
            r == (find_header(old(self)@, h.hash) is None),
            r ==> final(self)@ == old(self)@.push(h),
            !r ==> final(self)@ == old(self)@,
    {
        if self.header(&h.hash).is_some() {
            false
        } else {
            self.headers.push(h);
            true
        }
    }

    /// The number of stored headers.
    pub fn len(&self) -> (r: usize)
        ensures
            r == self@.len(),
    {
        self.headers.len()
    }
}

/// Pushing a header whose hash is not yet stored leaves every other lookup
/// as it was and makes the new header found under its hash.
pub proof fn lemma_find_after_push(s: Seq<Header>, h: Header, hash: H256)
    requires
        find_header(s, h.hash) is None,
    ensures
        find_header(s.push(h), hash) == if hash == h.hash {
            Some(h)
        } else {
            find_header(s, hash)
        },
    decreases s.len(),
{
    let t = s.push(h);
    if s.len() == 0 {
        assert(t[0] == h);
        assert(t.drop_first() =~= Seq::<Header>::empty());
        assert(find_header(t.drop_first(), hash) is None);
    } else {
        assert(t[0] == s[0]);
        assert(t.drop_first() =~= s.drop_first().push(h));
        assert(s[0].hash != h.hash);
        if s[0].hash != hash {
            assert(find_header(s.drop_first(), h.hash) is None);
            lemma_find_after_push(s.drop_first(), h, hash);
            assert(find_header(t, hash) == find_header(t.drop_first(), hash));
            assert(find_header(s, hash) == find_header(s.drop_first(), hash));
        } else {
            assert(find_header(t, hash) == Some(s[0]));
        }
    }
}

/// The number of the block whose hash keys the puzzle for a child of a block
/// numbered `parent_number`: the last epoch boundary, or the one before it
/// while the chain is fewer than `OFFSET` blocks past the last one.
pub open spec fn spec_key_number(parent_number: u64) -> u64 {
    let boundary = (parent_number - parent_number % PERIOD) as u64;
    if parent_number - boundary < OFFSET {
        if boundary >= PERIOD {
            (boundary - PERIOD) as u64
        } else {
            0
        }
    } else {
        boundary
    }
}

/// Computes `spec_key_number`.
pub fn key_number(parent_number: u64) -> (r: u64)
    ensures
        r == spec_key_number(parent_number),
        r <= parent_number,
{
    let boundary = parent_number.saturating_sub(parent_number % PERIOD);
    if parent_number.saturating_sub(boundary) < OFFSET {
        boundary.saturating_sub(PERIOD)
    } else {
        boundary
    }
}

/// Walking back from `cur` through parent links to the block numbered `key`.
pub open spec fn resolve_from(s: Seq<Header>, cur: Header, key: u64) -> Result<H256, EnvironmentError>
    decreases cur.number,
{
    if cur.number <= key {
        Ok(cur.hash)
    } else {
        match find_header(s, cur.parent_hash) {
            None => Err(EnvironmentError::HeaderNotFound(cur.parent_hash)),
            Some(p) => if p.number + 1 == cur.number {
                resolve_from(s, p, key)
            } else {
                Err(EnvironmentError::BrokenAncestry(cur.parent_hash))
            },
        }
    }
}

/// The epoch key for a child of the block `parent`.
pub open spec fn spec_key_hash(s: Seq<Header>, parent: H256) -> Result<H256, EnvironmentError> {
    match find_header(s, parent) {
        None => Err(EnvironmentError::HeaderNotFound(parent)),
        Some(h) => resolve_from(s, h, spec_key_number(h.number)),
    }
}

/// Resolves the epoch key for a child of `parent`: the hash of the ancestor
/// of `parent`, reached through parent links, numbered `key_number` of the
/// parent's number.
pub fn key_hash(store: &HeaderStore, parent: &H256) -> (r: Result<H256, EnvironmentError>)
    ensures
        r == spec_key_hash(store@, *parent),
{
    let parent_header = match store.header(parent) {
        Some(h) => h,
        None => return Err(EnvironmentError::HeaderNotFound(*parent)),
    };
    let key = key_number(parent_header.number);
    let mut current = parent_header;
    while current.number != key
        invariant
            key <= current.number,
            spec_key_hash(store@, *parent) == resolve_from(store@, current, key),
        decreases current.number,
    {
        match store.header(&current.parent_hash) {
            None => return Err(EnvironmentError::HeaderNotFound(current.parent_hash)),
            Some(p) => {
                if p.number < current.number && p.number + 1 == current.number {
                    current = p;
                } else {
                    return Err(EnvironmentError::BrokenAncestry(current.parent_hash));
                }
            },
        }
    }
    Ok(current.hash)
}

} // verus!
