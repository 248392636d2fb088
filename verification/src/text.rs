use vstd::prelude::*;

verus! {

/// True when `needle` occurs as a contiguous run of characters in `hay`.
pub open spec fn is_substring_of(needle: Seq<char>, hay: Seq<char>) -> bool {
    exists|i: int|
        0 <= i && i + needle.len() <= hay.len() && #[trigger] hay.subrange(
            i,
            i + needle.len(),
        ) == needle
}

/// A prefix is a substring.
pub proof fn lemma_prefix_is_substring(needle: Seq<char>, hay: Seq<char>)
    requires
        needle.len() <= hay.len(),
        hay.subrange(0, needle.len() as int) == needle,
    ensures
        is_substring_of(needle, hay),
{
    assert(hay.subrange(0, 0 + needle.len() as int) == needle);
}

/// Substrings survive appending more text on the right.
pub proof fn lemma_substring_extend(needle: Seq<char>, hay: Seq<char>, tail: Seq<char>)
    requires
        is_substring_of(needle, hay),
    ensures
        is_substring_of(needle, hay + tail),
{
    let i = choose|i: int|
        0 <= i && i + needle.len() <= hay.len() && #[trigger] hay.subrange(
            i,
            i + needle.len(),
        ) == needle;
    assert((hay + tail).subrange(i, i + needle.len()) =~= needle);
}

/// The appended part is a substring of the result of an append.
pub proof fn lemma_append_makes_substring(hay: Seq<char>, tail: Seq<char>)
    ensures
        is_substring_of(tail, hay + tail),
{
    assert((hay + tail).subrange(hay.len() as int, hay.len() as int + tail.len() as int) =~= tail);
}

/// A substring of a substring is a substring.
pub proof fn lemma_substring_trans(inner: Seq<char>, mid: Seq<char>, hay: Seq<char>)
    requires
        is_substring_of(inner, mid),
        is_substring_of(mid, hay),
    ensures
        is_substring_of(inner, hay),
{
    let i = choose|i: int|
        0 <= i && i + inner.len() <= mid.len() && #[trigger] mid.subrange(
            i,
            i + inner.len(),
        ) == inner;
    let j = choose|j: int|
        0 <= j && j + mid.len() <= hay.len() && #[trigger] hay.subrange(j, j + mid.len()) == mid;
    assert(hay.subrange(j + i, j + i + inner.len()) =~= inner);
}

/// Relies on `String::push`: appends exactly the one character.
#[verifier::external_body]
pub fn push_char(s: &mut String, c: char)
    ensures
        final(s)@ == old(s)@ + seq![c],
{
    s.push(c);
}

/// Character-wise string equality, with the view equality it decides.
pub fn str_eq(a: &str, b: &str) -> (r: bool)
    ensures
        r == (a@ == b@),
{
    let la = a.unicode_len();
    let lb = b.unicode_len();
    if la != lb {
        return false;
    }
    let mut i: usize = 0;
    while i < la
        invariant
            la == a@.len(),
            la == b@.len(),
            0 <= i <= la,
            forall|j: int| 0 <= j < i ==> a@[j] == b@[j],
        decreases la - i,
    {
        if a.get_char(i) != b.get_char(i) {
            return false;
        }
        i += 1;
    }
    proof {
        assert(a@ =~= b@);
    }
    true
}

/// True when `hay` contains `needle` as a contiguous run of characters.
pub fn contains_substr(hay: &str, needle: &str) -> (r: bool)
    ensures
        r == is_substring_of(needle@, hay@),
{
    let nh = hay.unicode_len();
    let nn = needle.unicode_len();
    if nn > nh {
        proof {
            assert(!is_substring_of(needle@, hay@));
        }
        return false;
    }
    let mut start: usize = 0;
    while start <= nh - nn
        invariant
            nh == hay@.len(),
            nn == needle@.len(),
            nn <= nh,
            0 <= start <= nh - nn + 1,
            forall|s: int|
                0 <= s < start && s + nn <= nh ==> #[trigger] hay@.subrange(s, s + nn as int)
                    != needle@,
        decreases nh - start,
    {
        let mut k: usize = 0;
        let mut matches = true;
        while k < nn
            invariant
                nh == hay@.len(),
                nn == needle@.len(),
                0 <= start,
                start + nn <= nh,
                0 <= k <= nn,
                matches == (forall|j: int|
                    0 <= j < k ==> hay@[start + j] == needle@[j]),
            decreases nn - k,
        {
            if hay.get_char(start + k) != needle.get_char(k) {
                matches = false;
                proof {
                    let kk = k as int;
                    assert(hay@[start + kk] != needle@[kk]);
                }
                k = nn;
            } else {
                k += 1;
            }
        }
        if matches {
            proof {
                assert(hay@.subrange(start as int, start as int + nn as int) =~= needle@);
            }
            return true;
        }
        proof {
            assert(hay@.subrange(start as int, start as int + nn as int) != needle@);
        }
        start += 1;
    }
    proof {
        assert forall|i: int|
            0 <= i && i + needle@.len() <= hay@.len() implies #[trigger] hay@.subrange(
            i,
            i + needle@.len(),
        ) != needle@ by {
            assert(i < start);
        }
    }
    false
}

} // verus!
