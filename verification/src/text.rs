//! Character-level helpers on strings, used by the matching logic.

use vstd::prelude::*;
use vstd::string::*;

verus! {

/// `needle` occurs in `hay` starting at index `k`.
pub open spec fn occurs_at(hay: Seq<char>, needle: Seq<char>, k: int) -> bool {
    &&& 0 <= k
    &&& k + needle.len() <= hay.len()
    &&& hay.subrange(k, k + needle.len()) == needle
}

/// `prefix` is a prefix of `s`.
pub open spec fn starts_with(s: Seq<char>, prefix: Seq<char>) -> bool {
    prefix.len() <= s.len() && s.take(prefix.len() as int) == prefix
}

/// The characters of a string slice, in order.
pub fn chars_of(s: &str) -> (r: Vec<char>)
    ensures
        r@ == s@,
{
    let n = s.unicode_len();
    let mut r: Vec<char> = Vec::new();
    let mut i: usize = 0;
    while i < n
        invariant
            n == s@.len(),
            i <= n,
            r@ == s@.take(i as int),
        decreases n - i,
    {
        let c = s.get_char(i);
        r.push(c);
        i += 1;
        assert(r@ =~= s@.take(i as int));
    }
    assert(r@ =~= s@);
    r
}

/// Whether `needle` occurs in `hay` at index `k` (exec check).
pub fn matches_at(hay: &Vec<char>, needle: &Vec<char>, k: usize) -> (b: bool)
    ensures
        b == occurs_at(hay@, needle@, k as int),
{
    let limit = hay.len();
    if k > limit || needle.len() > limit - k {
        return false;
    }
    let mut j: usize = 0;
    while j < needle.len()
        invariant
            limit == hay@.len(),
            k + needle@.len() <= hay@.len(),
            j <= needle@.len(),
            forall|t: int| 0 <= t < j ==> hay@[k + t] == needle@[t],
        decreases needle.len() - j,
    {
        if hay[k + j] != needle[j] {
            assert(hay@.subrange(k as int, k + needle@.len())[j as int] != needle@[j as int]);
            return false;
        }
        j += 1;
    }
    assert(hay@.subrange(k as int, k + needle@.len()) =~= needle@);
    true
}

/// Leftmost occurrence of `needle` in `hay` at or after `from`.
pub fn find_from(hay: &Vec<char>, needle: &Vec<char>, from: usize) -> (r: Option<usize>)
    ensures
        match r {
            Some(k) => {
                &&& from <= k
                &&& occurs_at(hay@, needle@, k as int)
                &&& forall|j: int| from <= j < k ==> !occurs_at(hay@, needle@, j)
            },
            None => forall|j: int| from <= j ==> !occurs_at(hay@, needle@, j),
        },
{
    if from > hay.len() {
        return None;
    }
    let mut k: usize = from;
    loop
        invariant
            from <= k <= hay@.len(),
            forall|j: int| from <= j < k ==> !occurs_at(hay@, needle@, j),
        ensures
            k == hay@.len(),
            forall|j: int| from <= j <= k ==> !occurs_at(hay@, needle@, j),
        decreases hay.len() - k,
    {
        if matches_at(hay, needle, k) {
            return Some(k);
        }
        if k >= hay.len() {
            break;
        }
        k += 1;
    }
    assert forall|j: int| from <= j implies !occurs_at(hay@, needle@, j) by {
        if j > k {
            assert(j > hay@.len());
        }
    }
    None
}

/// Whether `prefix` is a prefix of `s`.
pub fn has_prefix(s: &Vec<char>, prefix: &Vec<char>) -> (b: bool)
    ensures
        b == starts_with(s@, prefix@),
{
    let b = matches_at(s, prefix, 0);
    proof {
        assert(s@.subrange(0, prefix@.len() as int) == s@.take(prefix@.len() as int));
    }
    b
}

/// Whether character `c` occurs in `s`.
pub fn contains_char(s: &Vec<char>, c: char) -> (b: bool)
    ensures
        b == s@.contains(c),
{
    let mut i: usize = 0;
    while i < s.len()
        invariant
            i <= s@.len(),
            forall|j: int| 0 <= j < i ==> s@[j] != c,
        decreases s.len() - i,
    {
        if s[i] == c {
            return true;
        }
        i += 1;
    }
    false
}

/// Whether two string slices hold the same characters.
pub fn str_eq(a: &str, b: &str) -> (r: bool)
    ensures
        r == (a@ == b@),
{
    let x = chars_of(a);
    let y = chars_of(b);
    let same = x.len() == y.len() && has_prefix(&x, &y);
    proof {
        if x@.len() == y@.len() {
            assert(x@.take(y@.len() as int) =~= x@);
        }
    }
    same
}

} // verus!
