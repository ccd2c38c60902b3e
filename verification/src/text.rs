//! Case-insensitive text matching.
//!
//! The upstream catalog exposes no stable identifiers; venues, day groups and
//! meal categories are all found by case-insensitive substring matching over
//! free-text names.  This module defines that convention once: ASCII case
//! folding, case-insensitive equality and case-insensitive containment.

use vstd::prelude::*;

verus! {

/// ASCII case folding of one character: 'A'..'Z' map to 'a'..'z',
/// everything else is unchanged.
pub open spec fn lower_c(c: char) -> char {
    if 'A' <= c && c <= 'Z' {
        ((c as u8) + 32) as char
    } else {
        c
    }
}

/// The needle `n` matches `h` at offset `i`, comparing case-insensitively.
pub open spec fn matches_at(h: Seq<char>, n: Seq<char>, i: int) -> bool {
    forall|j: int| 0 <= j < n.len() ==> lower_c(h[i + j]) == lower_c(n[j])
}

/// `h` contains `n` as a substring, comparing case-insensitively.
pub open spec fn contains_ci_s(h: Seq<char>, n: Seq<char>) -> bool {
    exists|i: int| 0 <= i && i + n.len() <= h.len() && matches_at(h, n, i)
}

/// `a` and `b` are equal up to ASCII case.
pub open spec fn eq_ci_s(a: Seq<char>, b: Seq<char>) -> bool {
    a.len() == b.len() && matches_at(a, b, 0)
}

/// ASCII case folding of one character.
pub fn lower_char(c: char) -> (r: char)
    ensures
        r == lower_c(c),
{
    let u = c as u32;
    if 65 <= u && u <= 90 {
        ((u + 32) as u8) as char
    } else {
        c
    }
}

/// The needle `n` matches `h` at offset `i`, comparing case-insensitively.
fn match_at(h: &str, n: &str, i: usize) -> (r: bool)
    requires
        i + n@.len() <= h@.len() <= usize::MAX,
    ensures
        r == matches_at(h@, n@, i as int),
{
    let nlen = n.unicode_len();
    let mut j: usize = 0;
    while j < nlen
        invariant
            j <= nlen,
            nlen == n@.len(),
            i + n@.len() <= h@.len() <= usize::MAX,
            forall|k: int| 0 <= k < j ==> lower_c(h@[i + k]) == lower_c(n@[k]),
        decreases nlen - j,
    {
        if lower_char(h.get_char(i + j)) != lower_char(n.get_char(j)) {
            return false;
        }
        j += 1;
    }
    true
}

/// `h` contains `n` as a substring, comparing case-insensitively.
pub fn contains_ci(h: &str, n: &str) -> (r: bool)
    ensures
        r == contains_ci_s(h@, n@),
{
    let hlen = h.unicode_len();
    let nlen = n.unicode_len();
    if nlen > hlen {
        return false;
    }
    let mut i: usize = 0;
    while i <= hlen - nlen
        invariant
            hlen == h@.len(),
            nlen == n@.len(),
            nlen <= hlen,
            i <= hlen - nlen + 1,
            forall|k: int| 0 <= k < i ==> !matches_at(h@, n@, k),
        decreases hlen - nlen + 1 - i,
    {
        if match_at(h, n, i) {
            return true;
        }
        i += 1;
    }
    false
}

/// `a` and `b` are equal up to ASCII case.
pub fn eq_ci(a: &str, b: &str) -> (r: bool)
    ensures
        r == eq_ci_s(a@, b@),
{
    if a.unicode_len() != b.unicode_len() {
        return false;
    }
    match_at(a, b, 0)
}

} // verus!
