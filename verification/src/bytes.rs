//! Small verified helpers for byte payloads.

use vstd::prelude::*;

verus! {

/// A copy of a byte vector, with the copy's contents pinned to the original.
pub fn clone_bytes(v: &Vec<u8>) -> (r: Vec<u8>)
    ensures
        r@ == v@,
{
    let r = v.clone();
    proof {
        assert(r@ =~= v@);
    }
    r
}

/// Byte-vector equality, decided by contents.
pub fn eq_bytes(a: &Vec<u8>, b: &Vec<u8>) -> (r: bool)
    ensures
        r == (a@ == b@),
{
    let r = a == b;
    proof {
        if r {
            assert(a@ =~= b@);
        } else if a@ == b@ {
            assert(forall|i: int| 0 <= i < a@.len() ==> a@[i] == b@[i]);
            assert(false);
        }
    }
    r
}

/// Whether `needle` occurs as a contiguous run inside `haystack`; the empty
/// sequence occurs in everything.
pub open spec fn contains_seq(haystack: Seq<u8>, needle: Seq<u8>) -> bool {
    exists|i: int|
        0 <= i <= haystack.len() - needle.len() && #[trigger] haystack.subrange(
            i,
            i + needle.len(),
        ) == needle
}

/// Whether `needle` occurs at position `i` of `haystack`.
fn matches_at(haystack: &Vec<u8>, needle: &Vec<u8>, i: usize) -> (r: bool)
    requires
        i + needle@.len() <= haystack@.len(),
    ensures
        r == (haystack@.subrange(i as int, i + needle@.len()) == needle@),
{
    let hlen = haystack.len();
    let mut j: usize = 0;
    while j < needle.len()
        invariant
            i + needle@.len() <= haystack@.len(),
            haystack@.len() == hlen,
            j <= needle@.len(),
            forall|k: int| 0 <= k < j ==> haystack@[i + k] == needle@[k],
        decreases needle@.len() - j,
    {
        if haystack[i + j] != needle[j] {
            proof {
                assert(haystack@.subrange(i as int, i + needle@.len())[j as int]
                    == haystack@[i + j]);
            }
            return false;
        }
        j = j + 1;
    }
    proof {
        assert(haystack@.subrange(i as int, i + needle@.len()) =~= needle@);
    }
    true
}

/// Substring search over byte vectors.
pub fn contains_bytes(haystack: &Vec<u8>, needle: &Vec<u8>) -> (r: bool)
    ensures
        r == contains_seq(haystack@, needle@),
{
    if needle.len() > haystack.len() {
        return false;
    }
    let end = haystack.len() - needle.len();
    let mut i: usize = 0;
    loop
        invariant
            needle@.len() <= haystack@.len(),
            end == haystack@.len() - needle@.len(),
            i <= end,
            forall|k: int|
                0 <= k < i ==> #[trigger] haystack@.subrange(k, k + needle@.len()) != needle@,
        decreases end - i,
    {
        if matches_at(haystack, needle, i) {
            return true;
        }
        if i == end {
            return false;
        }
        i = i + 1;
    }
}

} // verus!
