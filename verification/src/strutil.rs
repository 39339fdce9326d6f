//! Verified string helpers: exact equality, case-folded comparison against a
//! lowercase reference, and concatenation.

use vstd::prelude::*;
use vstd::string::StrSliceExecFns;
use vstd::string::StringExecFns;

verus! {

/// `c` matches a lowercase ASCII reference character when it is that very
/// character or its uppercase ASCII counterpart.
pub open spec fn char_matches_lower(c: char, lower: char) -> bool {
    c == lower || c as int + 32 == lower as int
}

/// Case-insensitive match of `s` against an all-lowercase ASCII reference.
pub open spec fn matches_lower(s: Seq<char>, lower: Seq<char>) -> bool {
    s.len() == lower.len() && forall|i: int| 0 <= i < s.len() ==> char_matches_lower(s[i], lower[i])
}

/// Exact character-for-character string equality.
pub fn str_eq(a: &str, b: &str) -> (r: bool)
    ensures
        r == (a@ == b@),
{
    let la = a.unicode_len();
    let lb = b.unicode_len();
    if la != lb {
        return false;
    }
    let mut i: usize = 0;
    while i < la
        invariant
            la == a@.len(),
            lb == b@.len(),
            la == lb,
            i <= la,
            forall|j: int| 0 <= j < i ==> a@[j] == b@[j],
        decreases la - i,
    {
        if a.get_char(i) != b.get_char(i) {
            return false;
        }
        i = i + 1;
    }
    proof {
        assert(a@ =~= b@);
    }
    true
}

/// Case-insensitive comparison of `s` against an all-lowercase ASCII
/// reference string.
pub fn str_matches_lower(s: &str, lower: &str) -> (r: bool)
    ensures
        r == matches_lower(s@, lower@),
{
    let ls = s.unicode_len();
    let ll = lower.unicode_len();
    if ls != ll {
        return false;
    }
    let mut i: usize = 0;
    while i < ls
        invariant
            ls == s@.len(),
            ll == lower@.len(),
            ls == ll,
            i <= ls,
            forall|j: int| 0 <= j < i ==> char_matches_lower(s@[j], lower@[j]),
        decreases ls - i,
    {
        let c = s.get_char(i);
        let l = lower.get_char(i);
        if !(c == l || (c as u32) + 32 == (l as u32)) {
            return false;
        }
        i = i + 1;
    }
    true
}

/// Membership of `c` in a vector of strings, by character-for-character
/// equality.
pub fn vec_contains_str(v: &Vec<String>, c: &str) -> (r: bool)
    ensures
        r == exists|i: int| 0 <= i < v@.len() && v@[i]@ == c@,
{
    let n = v.len();
    let mut i: usize = 0;
    while i < n
        invariant
            n == v@.len(),
            i <= n,
            forall|j: int| 0 <= j < i ==> v@[j]@ != c@,
        decreases n - i,
    {
        if str_eq(v[i].as_str(), c) {
            proof {
                assert(v@[i as int]@ == c@);
            }
            return true;
        }
        i = i + 1;
    }
    false
}

/// Concatenation of three string slices into one owned string.
pub fn concat3(a: &str, b: &str, c: &str) -> (r: String)
    ensures
        r@ == a@ + b@ + c@,
{
    let mut s = a.to_owned();
    s.append(b);
    s.append(c);
    s
}

} // verus!
