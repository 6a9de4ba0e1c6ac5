//! Locating marker bytes inside a buffer.
use vstd::prelude::*;

verus! {

/// Index of the first occurrence of `b` in `s` at or after `from`;
/// `s.len()` when there is none.
pub open spec fn find_from(s: Seq<u8>, b: u8, from: int) -> int
    decreases s.len() - from,
{
    if from < 0 {
        find_from(s, b, 0)
    } else if from >= s.len() {
        s.len() as int
    } else if s[from] == b {
        from
    } else {
        find_from(s, b, from + 1)
    }
}

/// `find_from` lands at or after `from`, never past the end, on an
/// occurrence of `b` when one exists, and skips no occurrence.
pub proof fn lemma_find_from(s: Seq<u8>, b: u8, from: int)
    requires
        0 <= from,
    ensures
        find_from(s, b, from) <= s.len(),
        from <= s.len() ==> from <= find_from(s, b, from),
        find_from(s, b, from) < s.len() ==> s[find_from(s, b, from)] == b,
        forall|i: int| from <= i < find_from(s, b, from) ==> s[i] != b,
    decreases s.len() - from,
{
    if from < s.len() && s[from] != b {
        lemma_find_from(s, b, from + 1);
    }
}

/// Where `b` first occurs at `k` with no earlier occurrence after
/// `from`, the search lands exactly on `k`.
pub proof fn lemma_find_from_at(s: Seq<u8>, b: u8, from: int, k: int)
    requires
        0 <= from <= k < s.len(),
        s[k] == b,
        forall|j: int| from <= j < k ==> s[j] != b,
    ensures
        find_from(s, b, from) == k,
    decreases k - from,
{
    if from < k {
        lemma_find_from_at(s, b, from + 1, k);
    }
}

/// Index of the first `b` in `buf[..w]` at or after `from`, or `w`.
pub fn find_byte_from(buf: &[u8], w: usize, b: u8, from: usize) -> (i: usize)
    requires
        w <= buf@.len(),
    ensures
        i == find_from(buf@.take(w as int), b, from as int),
{
    let ghost s = buf@.take(w as int);
    let mut i: usize = from;
    loop
        invariant
            from <= i,
            find_from(s, b, from as int) == find_from(s, b, i as int),
        decreases w - i,
    {
        if i >= w {
            assert(find_from(s, b, i as int) == s.len());
            return w;
        }
        if buf[i] == b {
            assert(s[i as int] == buf@[i as int]);
            return i;
        }
        assert(find_from(s, b, i as int) == find_from(s, b, i + 1));
        i = i + 1;
    }
}

} // verus!
