//! Small verified string utilities: character-class checks, equality, and
//! prefix stripping over `&str` views.

use vstd::prelude::*;
use vstd::string::StrSliceExecFns;

verus! {

/// An ASCII alphanumeric character: a digit or a letter of either case.
pub open spec fn spec_safe_char(c: char) -> bool {
    (48 <= c as u32 && c as u32 <= 57) || (65 <= c as u32 && c as u32 <= 90) || (97 <= c as u32
        && c as u32 <= 122)
}

/// Every character of the sequence is ASCII alphanumeric.
pub open spec fn spec_all_safe(s: Seq<char>) -> bool {
    forall|i: int| 0 <= i < s.len() ==> spec_safe_char(#[trigger] s[i])
}

/// Whether `s` contains only ASCII alphanumeric characters.
pub fn has_only_safe_chars(s: &str) -> (r: bool)
    ensures
        r == spec_all_safe(s@),
{
    let n = s.unicode_len();
    let mut i: usize = 0;
    while i < n
        invariant
            n == s@.len(),
            0 <= i <= n,
            forall|j: int| 0 <= j < i ==> spec_safe_char(#[trigger] s@[j]),
        decreases n - i,
    {
        let c = s.get_char(i);
        let u = c as u32;
        if !((48 <= u && u <= 57) || (65 <= u && u <= 90) || (97 <= u && u <= 122)) {
            assert(!spec_safe_char(s@[i as int]));
            return false;
        }
        i += 1;
    }
    true
}

/// Character-for-character equality of two string slices.
pub fn str_eq(a: &str, b: &str) -> (r: bool)
    ensures
        r == (a@ == b@),
{
    let an = a.unicode_len();
    let bn = b.unicode_len();
    if an != bn {
        assert(a@ != b@);
        return false;
    }
    let mut i: usize = 0;
    while i < an
        invariant
            an == a@.len(),
            an == b@.len(),
            0 <= i <= an,
            forall|j: int| 0 <= j < i ==> a@[j] == b@[j],
        decreases an - i,
    {
        if a.get_char(i) != b.get_char(i) {
            assert(a@ != b@);
            return false;
        }
        i += 1;
    }
    assert(a@ =~= b@);
    true
}

/// The sequence `p` is a prefix of `s`.
pub open spec fn spec_has_prefix(s: Seq<char>, p: Seq<char>) -> bool {
    p.len() <= s.len() && s.subrange(0, p.len() as int) == p
}

/// Strip `p` from the front of `s`: the remainder when `p` is a prefix,
/// `None` otherwise.
pub fn str_strip_prefix<'a>(s: &'a str, p: &str) -> (r: Option<&'a str>)
    ensures
        match r {
            Some(rest) => s@ == p@ + rest@,
            None => !spec_has_prefix(s@, p@),
        },
{
    let sn = s.unicode_len();
    let pn = p.unicode_len();
    if sn < pn {
        return None;
    }
    let mut i: usize = 0;
    while i < pn
        invariant
            sn == s@.len(),
            pn == p@.len(),
            pn <= sn,
            0 <= i <= pn,
            forall|j: int| 0 <= j < i ==> s@[j] == p@[j],
        decreases pn - i,
    {
        if s.get_char(i) != p.get_char(i) {
            assert(s@.subrange(0, p@.len() as int)[i as int] != p@[i as int]);
            return None;
        }
        i += 1;
    }
    let rest = s.substring_char(pn, sn);
    assert(s@ =~= p@ + rest@);
    Some(rest)
}

} // verus!
