//! Case-insensitive substring matching over character sequences, used by
//! the listing search filters.  Folding is over the ASCII letters, which
//! covers the ticker symbols and names the filters run on.

use vstd::prelude::*;

verus! {

/// The character code with an ASCII capital letter folded to lower case.
pub open spec fn lower_code(c: char) -> int {
    if 65 <= c as u32 && c as u32 <= 90 {
        c as u32 + 32
    } else {
        c as u32 as int
    }
}

/// Two characters are equal up to ASCII case.
pub open spec fn chars_eq_ci(a: char, b: char) -> bool {
    lower_code(a) == lower_code(b)
}

/// Two sequences are equal up to ASCII case.
pub open spec fn seq_eq_ci(a: Seq<char>, b: Seq<char>) -> bool {
    &&& a.len() == b.len()
    &&& forall|i: int| 0 <= i < a.len() ==> chars_eq_ci(#[trigger] a[i], b[i])
}

/// `needle` occurs in `hay` at offset `k`, up to ASCII case.
pub open spec fn contains_ci_at(hay: Seq<char>, needle: Seq<char>, k: int) -> bool {
    &&& 0 <= k
    &&& k + needle.len() <= hay.len()
    &&& seq_eq_ci(hay.subrange(k, k + needle.len() as int), needle)
}

/// `needle` occurs somewhere in `hay`, up to ASCII case.
pub open spec fn contains_ci(hay: Seq<char>, needle: Seq<char>) -> bool {
    exists|k: int| contains_ci_at(hay, needle, k)
}

/// Whether two characters agree up to ASCII case.
pub fn char_eq_ci(a: char, b: char) -> (r: bool)
    ensures
        r == chars_eq_ci(a, b),
{
    let ua = a as u32;
    let ub = b as u32;
    let la = if 65 <= ua && ua <= 90 {
        ua + 32
    } else {
        ua
    };
    let lb = if 65 <= ub && ub <= 90 {
        ub + 32
    } else {
        ub
    };
    la == lb
}

/// Whether `needle` occurs in `hay` at offset `k`, up to ASCII case.
fn match_at_ci(hay: &str, needle: &str, k: usize, hn: usize, nn: usize) -> (r: bool)
    requires
        hn == hay@.len(),
        nn == needle@.len(),
        k + nn <= hn,
    ensures
        r == contains_ci_at(hay@, needle@, k as int),
{
    for j in 0..nn
        invariant
            hn == hay@.len(),
            nn == needle@.len(),
            k + nn <= hn,
            forall|j2: int| 0 <= j2 < j ==> chars_eq_ci(#[trigger] hay@[k + j2], needle@[j2]),
    {
        let hc = hay.get_char(k + j);
        let nc = needle.get_char(j);
        if !char_eq_ci(hc, nc) {
            proof {
                assert(hay@.subrange(k as int, k + nn as int)[j as int] == hay@[k + j]);
            }
            return false;
        }
    }
    proof {
        assert forall|i: int|
            0 <= i < nn implies chars_eq_ci(
            #[trigger] hay@.subrange(k as int, k + nn as int)[i],
            needle@[i],
        ) by {
            assert(hay@.subrange(k as int, k + nn as int)[i] == hay@[k + i]);
        }
    }
    true
}

/// Whether two string slices hold the same characters.
pub fn str_eq(a: &str, b: &str) -> (r: bool)
    ensures
        r == (a@ == b@),
{
    let an = a.unicode_len();
    let bn = b.unicode_len();
    if an != bn {
        return false;
    }
    for i in 0..an
        invariant
            an == a@.len(),
            an == b@.len(),
            forall|k: int| 0 <= k < i ==> a@[k] == b@[k],
    {
        if a.get_char(i) != b.get_char(i) {
            return false;
        }
    }
    proof {
        assert(a@ =~= b@);
    }
    true
}

/// Whether `needle` occurs as a substring of `hay`, up to ASCII case.
pub fn str_contains_ci(hay: &str, needle: &str) -> (r: bool)
    ensures
        r == contains_ci(hay@, needle@),
{
    let hn = hay.unicode_len();
    let nn = needle.unicode_len();
    if nn > hn {
        proof {
            assert forall|k: int| !contains_ci_at(hay@, needle@, k) by {}
        }
        return false;
    }
    let last = hn - nn;
    let mut k: usize = 0;
    while k <= last
        invariant
            hn == hay@.len(),
            nn == needle@.len(),
            nn <= hn,
            last == hn - nn,
            k <= last + 1,
            forall|k2: int| 0 <= k2 < k ==> !contains_ci_at(hay@, needle@, k2),
        decreases last + 1 - k,
    {
        if match_at_ci(hay, needle, k, hn, nn) {
            return true;
        }
        k = k + 1;
    }
    proof {
        assert forall|k2: int| !contains_ci_at(hay@, needle@, k2) by {
            if 0 <= k2 <= last {
                assert(!contains_ci_at(hay@, needle@, k2));
            }
        }
    }
    false
}

} // verus!
