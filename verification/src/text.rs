//! Comparing names.

use vstd::prelude::*;
use vstd::string::*;

verus! {

/// A letter without its case, for the letters of ASCII.
pub open spec fn small(c: char) -> char {
    if 'A' <= c <= 'Z' {
        (c as u8 + 32) as u8 as char
    } else {
        c
    }
}

fn small_of(c: char) -> (s: char)
    ensures
        s == small(c),
{
    if 'A' <= c && c <= 'Z' {
        let n: u8 = c as u8;
        (n + 32) as char
    } else {
        c
    }
}

/// The same characters but for the case of ASCII letters.
pub open spec fn alike(a: Seq<char>, b: Seq<char>) -> bool {
    a.len() == b.len() && forall|k: int| 0 <= k < a.len() ==> small(#[trigger] a[k]) == small(b[k])
}

/// Is one text like the other, ignoring the case of ASCII letters?
pub fn is_alike(a: &str, b: &str) -> (yes: bool)
    ensures
        yes == alike(a@, b@),
{
    let n: usize = a.unicode_len();
    if n != b.unicode_len() {
        return false;
    }
    let mut k: usize = 0;
    while k < n
        invariant
            k <= n,
            n == a@.len(),
            n == b@.len(),
            forall|j: int| 0 <= j < k ==> small(#[trigger] a@[j]) == small(b@[j]),
        decreases n - k,
    {
        if small_of(a.get_char(k)) != small_of(b.get_char(k)) {
            assert(small(a@[k as int]) != small(b@[k as int]));
            return false;
        }
        k = k + 1;
    }
    true
}

/// Is one text the same as the other?
pub fn is_same(a: &str, b: &str) -> (yes: bool)
    ensures
        yes == (a@ == b@),
{
    let n: usize = a.unicode_len();
    if n != b.unicode_len() {
        return false;
    }
    let mut k: usize = 0;
    while k < n
        invariant
            k <= n,
            n == a@.len(),
            n == b@.len(),
            forall|j: int| 0 <= j < k ==> a@[j] == b@[j],
        decreases n - k,
    {
        if a.get_char(k) != b.get_char(k) {
            return false;
        }
        k = k + 1;
    }
    assert(a@ =~= b@);
    true
}

} // verus!
