use vstd::prelude::*;

verus! {

/// A byte pattern in which `None` marks a position that matches any byte.
#[derive(Clone, Debug)]
pub struct Signature {
    pub pattern: Vec<Option<u8>>,
}

/// Whether `pattern` matches `region` at index `i`: the window fits and every
/// non-wildcard entry equals the byte under it.
pub open spec fn matches_at(pattern: Seq<Option<u8>>, region: Seq<u8>, i: int) -> bool {
    &&& 0 <= i
    &&& i + pattern.len() <= region.len()
    &&& forall|j: int|
        0 <= j < pattern.len() ==> match #[trigger] pattern[j] {
            Some(b) => region[i + j] == b,
            None => true,
        }
}

/// The lowest index at which `pattern` matches `region`, if any.
#[verifier::opaque]
pub open spec fn first_match(pattern: Seq<Option<u8>>, region: Seq<u8>) -> Option<int> {
    if exists|i: int| matches_at(pattern, region, i) {
        Some(choose|i: int| matches_at(pattern, region, i) && forall|k: int| 0 <= k < i ==> !matches_at(pattern, region, k))
    } else {
        None
    }
}

impl Signature {
    /// A signature over `pattern`.
    pub fn new(pattern: Vec<Option<u8>>) -> (r: Signature)
        ensures
            r.pattern@ == pattern@,
    {
        Signature { pattern }
    }

    /// Whether the signature matches `region` at index `i`.
    pub fn matches(&self, region: &[u8], i: usize) -> (r: bool)
        requires
            i <= region@.len(),
        ensures
            r == matches_at(self.pattern@, region@, i as int),
    {
        if self.pattern.len() > region.len() - i {
            return false;
        }
        let mut j: usize = 0;
        while j < self.pattern.len()
            invariant
                i + self.pattern@.len() <= region@.len(),
                region@.len() <= usize::MAX,
                j <= self.pattern@.len(),
                forall|k: int|
                    0 <= k < j ==> match #[trigger] self.pattern@[k] {
                        Some(b) => region@[i + k] == b,
                        None => true,
                    },
            decreases self.pattern@.len() - j,
        {
            match self.pattern[j] {
                Some(b) => {
                    if region[i + j] != b {
                        return false;
                    }
                },
                None => {},
            }
            j = j + 1;
        }
        true
    }

    /// Index of the first window of `region`, in ascending order, that the
    /// signature matches.
    pub fn find(&self, region: &[u8]) -> (r: Option<usize>)
        ensures
            r == (match first_match(self.pattern@, region@) {
                Some(i) => Some(i as usize),
                None => None,
            }),
            r matches Some(i) ==> matches_at(self.pattern@, region@, i as int),
    {
        proof {
            lemma_first_match_properties(self.pattern@, region@);
        }
        let mut i: usize = 0;
        while i < region.len()
            invariant
                i <= region@.len(),
                forall|k: int| 0 <= k < i ==> !matches_at(self.pattern@, region@, k),
            decreases region@.len() - i,
        {
            if self.matches(region, i) {
                proof {
                    lemma_first_match_is(self.pattern@, region@, i as int);
                }
                return Some(i);
            }
            i = i + 1;
        }
        if self.matches(region, i) {
            proof {
                lemma_first_match_is(self.pattern@, region@, i as int);
            }
            return Some(i);
        }
        proof {
            lemma_no_match(self.pattern@, region@);
        }
        None
    }

    /// Scans `region`, which lies in memory from address `base` on, in ascending
    /// order, and returns the address of the first byte of the first window that
    /// the signature matches.
    pub fn scan(&self, region: &[u8], base: u64) -> (r: Option<u64>)
        requires
            base + region@.len() <= u64::MAX,
        ensures
            r == (match first_match(self.pattern@, region@) {
                Some(i) => Some((base + i) as u64),
                None => None,
            }),
            r matches Some(a) ==> base <= a && matches_at(self.pattern@, region@, a - base) && forall|
                k: int,
            | 0 <= k < a - base ==> !matches_at(self.pattern@, region@, k),
            r is None ==> forall|k: int| !matches_at(self.pattern@, region@, k),
    {
        proof {
            lemma_first_match_properties(self.pattern@, region@);
        }
        match self.find(region) {
            Some(i) => Some(base + i as u64),
            None => None,
        }
    }
}

/// When `pattern` matches at `i` and nowhere before, `i` is the first match.
pub proof fn lemma_first_match_is(pattern: Seq<Option<u8>>, region: Seq<u8>, i: int)
    requires
        matches_at(pattern, region, i),
        forall|k: int| 0 <= k < i ==> !matches_at(pattern, region, k),
    ensures
        first_match(pattern, region) == Some(i),
{
    reveal(first_match);
    let c = choose|c: int| matches_at(pattern, region, c) && forall|k: int| 0 <= k < c ==> !matches_at(pattern, region, k);
    assert(matches_at(pattern, region, c) && forall|k: int| 0 <= k < c ==> !matches_at(pattern, region, k));
    if c < i {
        assert(!matches_at(pattern, region, c));
    } else if c > i {
        assert(!matches_at(pattern, region, i));
    }
}

/// When `pattern` matches nowhere in `region`, there is no first match.
pub proof fn lemma_no_match(pattern: Seq<Option<u8>>, region: Seq<u8>)
    requires
        forall|k: int| 0 <= k <= region.len() ==> !matches_at(pattern, region, k),
    ensures
        first_match(pattern, region).is_none(),
{
    reveal(first_match);
    assert forall|k: int| !matches_at(pattern, region, k) by {
        if k > region.len() {
            assert(k + pattern.len() > region.len());
        }
    }
}

/// The first match is a match, and nothing before it matches.
pub proof fn lemma_first_match_properties(pattern: Seq<Option<u8>>, region: Seq<u8>)
    ensures
        first_match(pattern, region) matches Some(i) ==> matches_at(pattern, region, i) && forall|
            k: int,
        | 0 <= k < i ==> !matches_at(pattern, region, k),
        first_match(pattern, region).is_none() ==> forall|k: int| !matches_at(pattern, region, k),
{
    reveal(first_match);
    if exists|i: int| matches_at(pattern, region, i) {
        let w = choose|i: int| matches_at(pattern, region, i);
        lemma_least_match_exists(pattern, region, w);
    }
}

/// Below any match lies a least one.
proof fn lemma_least_match_exists(pattern: Seq<Option<u8>>, region: Seq<u8>, w: int)
    requires
        matches_at(pattern, region, w),
    ensures
        exists|i: int| matches_at(pattern, region, i) && forall|k: int| 0 <= k < i ==> !matches_at(pattern, region, k),
    decreases w,
{
    if exists|k: int| 0 <= k < w && matches_at(pattern, region, k) {
        let k = choose|k: int| 0 <= k < w && matches_at(pattern, region, k);
        lemma_least_match_exists(pattern, region, k);
    } else {
        assert(matches_at(pattern, region, w) && forall|k: int| 0 <= k < w ==> !matches_at(pattern, region, k));
    }
}

} // verus!
