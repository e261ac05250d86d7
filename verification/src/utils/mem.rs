use vstd::prelude::*;

verus! {

/// Whether `pattern` fits `buffer` at offset `i`: every `Some(b)` of the
/// pattern equals the byte under it, a `None` matches any byte, and the whole
/// pattern lies inside the buffer. An offset names a byte of the buffer, so an
/// empty buffer holds no match, not even of the empty pattern.
pub open spec fn matches_at(buffer: Seq<u8>, pattern: Seq<Option<u8>>, i: int) -> bool {
    &&& 0 <= i < buffer.len()
    &&& i + pattern.len() <= buffer.len()
    &&& forall|j: int|
        0 <= j < pattern.len() ==> (#[trigger] pattern[j] matches Some(b) ==> buffer[i + j] == b)
}

/// Whether `i` is the lowest offset at which `pattern` fits `buffer`.
pub open spec fn is_first_match(buffer: Seq<u8>, pattern: Seq<Option<u8>>, i: int) -> bool {
    &&& matches_at(buffer, pattern, i)
    &&& forall|k: int| 0 <= k < i ==> !matches_at(buffer, pattern, k)
}

/// The lowest offset at which `pattern` fits `buffer`, if it fits anywhere.
pub open spec fn first_match(buffer: Seq<u8>, pattern: Seq<Option<u8>>) -> Option<int> {
    if exists|i: int| is_first_match(buffer, pattern, i) {
        Some(choose|i: int| is_first_match(buffer, pattern, i))
    } else {
        None
    }
}

/// A lowest matching offset is the value of `first_match`.
pub proof fn lemma_first_match_unique(buffer: Seq<u8>, pattern: Seq<Option<u8>>, i: int)
    requires
        is_first_match(buffer, pattern, i),
    ensures
        first_match(buffer, pattern) == Some(i),
{
    let c = choose|c: int| is_first_match(buffer, pattern, c);
    if c < i {
        assert(!matches_at(buffer, pattern, c));
    } else if i < c {
        assert(!matches_at(buffer, pattern, i));
    }
}

/// Without any matching offset `first_match` is `None`.
pub proof fn lemma_first_match_none(buffer: Seq<u8>, pattern: Seq<Option<u8>>)
    requires
        forall|k: int| !matches_at(buffer, pattern, k),
    ensures
        first_match(buffer, pattern) is None,
{
}

/// Checks one offset of the buffer against the whole pattern.
fn fits_at(buffer: &[u8], pattern: &[Option<u8>], i: usize) -> (r: bool)
    requires
        i < buffer.len(),
        i + pattern.len() <= buffer.len(),
    ensures
        r == matches_at(buffer@, pattern@, i as int),
{
    let mut j: usize = 0;
    while j < pattern.len()
        invariant
            j <= pattern.len(),
            i < buffer.len(),
            i + pattern.len() <= buffer.len(),
            forall|k: int|
                0 <= k < j ==> (#[trigger] pattern@[k] matches Some(b) ==> buffer@[i + k] == b),
        decreases pattern.len() - j,
    {
        match pattern[j] {
            Some(byte) => {
                if buffer[i + j] != byte {
                    return false;
                }
            },
            None => {},
        }
        j += 1;
    }
    true
}

/// Finds the first offset of `buffer` at which the wildcard `pattern` fits.
///
/// Every offset at which the whole pattern lies inside the buffer is tried,
/// the last one included.
pub fn find_pattern_in_buffer(buffer: &[u8], pattern: &[Option<u8>]) -> (r: Option<usize>)
    ensures
        r matches Some(i) ==> is_first_match(buffer@, pattern@, i as int),
        r is None ==> forall|k: int| !matches_at(buffer@, pattern@, k),
        first_match(buffer@, pattern@) == match r {
            Some(i) => Some(i as int),
            None => None,
        },
{
    if pattern.len() > buffer.len() {
        proof {
            lemma_first_match_none(buffer@, pattern@);
        }
        return None;
    }
    let last: usize = buffer.len() - pattern.len();
    let mut i: usize = 0;
    while i < buffer.len() && i <= last
        invariant
            last == buffer.len() - pattern.len(),
            pattern.len() <= buffer.len(),
            forall|k: int| 0 <= k < i ==> !matches_at(buffer@, pattern@, k),
        decreases buffer.len() - i,
    {
        if fits_at(buffer, pattern, i) {
            proof {
                lemma_first_match_unique(buffer@, pattern@, i as int);
            }
            return Some(i);
        }
        i += 1;
    }
    proof {
        lemma_first_match_none(buffer@, pattern@);
    }
    None
}

} // verus!
