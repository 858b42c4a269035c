use vstd::prelude::*;
use vstd::string::StrSliceExecFns;

verus! {

/// `needle` occurs in `hay` as a contiguous run of characters.
pub open spec fn spec_contains(hay: Seq<char>, needle: Seq<char>) -> bool {
    exists|i: int|
        0 <= i && i + needle.len() <= hay.len() && #[trigger] hay.subrange(i, i + needle.len())
            == needle
}

/// `needle` matches `hay` character by character starting at position `at`.
fn matches_at(hay: &str, needle: &str, at: usize) -> (b: bool)
    requires
        at + needle@.len() <= hay@.len(),
    ensures
        b == (hay@.subrange(at as int, at + needle@.len()) == needle@),
{
    let h: usize = hay.unicode_len();
    let n: usize = needle.unicode_len();
    let mut j: usize = 0;
    while j < n
        invariant
            h == hay@.len(),
            n == needle@.len(),
            at + n <= hay@.len(),
            j <= n,
            forall|k: int| 0 <= k < j ==> hay@[at + k] == needle@[k],
        decreases n - j,
    {
        if hay.get_char(at + j) != needle.get_char(j) {
            proof {
                assert(hay@.subrange(at as int, at + needle@.len())[j as int] == hay@[at + j]);
            }
            return false;
        }
        j = j + 1;
    }
    proof {
        assert(hay@.subrange(at as int, at + needle@.len()) =~= needle@);
    }
    true
}

/// Reports whether `needle` occurs anywhere in `hay`.
pub fn contains_substr(hay: &str, needle: &str) -> (b: bool)
    ensures
        b == spec_contains(hay@, needle@),
{
    let h: usize = hay.unicode_len();
    let n: usize = needle.unicode_len();
    if n == 0 {
        proof {
            let k: int = 0;
            assert(hay@.subrange(k, k + needle@.len()) =~= needle@);
        }
        return true;
    }
    if n > h {
        proof {
            assert(!spec_contains(hay@, needle@)) by {
                if spec_contains(hay@, needle@) {
                    let i0 = choose|i0: int|
                        0 <= i0 && i0 + needle@.len() <= hay@.len() && #[trigger] hay@.subrange(
                            i0,
                            i0 + needle@.len(),
                        ) == needle@;
                    assert(false);
                }
            }
        }
        return false;
    }
    let mut i: usize = 0;
    while i <= h - n
        invariant
            h == hay@.len(),
            n == needle@.len(),
            0 < n <= h,
            i <= h - n + 1,
            forall|k: int|
                0 <= k < i ==> #[trigger] hay@.subrange(k, k + needle@.len()) != needle@,
        decreases h - n - i + 1,
    {
        if matches_at(hay, needle, i) {
            proof {
                let k: int = i as int;
                assert(hay@.subrange(k, k + needle@.len()) == needle@);
            }
            return true;
        }
        proof {
            let k: int = i as int;
            assert(hay@.subrange(k, k + needle@.len()) != needle@);
        }
        i = i + 1;
    }
    proof {
        assert(!spec_contains(hay@, needle@)) by {
            if spec_contains(hay@, needle@) {
                let i0 = choose|i0: int|
                    0 <= i0 && i0 + needle@.len() <= hay@.len() && #[trigger] hay@.subrange(
                        i0,
                        i0 + needle@.len(),
                    ) == needle@;
                assert(hay@.subrange(i0, i0 + needle@.len()) != needle@);
                assert(false);
            }
        }
    }
    false
}

} // verus!
