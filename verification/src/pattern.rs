//! Substring search over the characters of a string.

use vstd::prelude::*;

verus! {

/// `pat` stands in `text` at offset `at`.
pub open spec fn occurs_at(text: Seq<char>, pat: Seq<char>, at: int) -> bool {
    &&& 0 <= at
    &&& at + pat.len() <= text.len()
    &&& text.subrange(at, at + pat.len()) == pat
}

/// `pat` is a contiguous part of `text`. The empty pattern is part of every
/// text.
pub open spec fn occurs_in(text: Seq<char>, pat: Seq<char>) -> bool {
    exists|at: int| occurs_at(text, pat, at)
}

/// A part of a part is a part: if `mid` occurs in `text` and `pat` occurs in
/// `mid`, then `pat` occurs in `text`.
pub proof fn lemma_occurs_in_transitive(text: Seq<char>, mid: Seq<char>, pat: Seq<char>)
    requires
        occurs_in(text, mid),
        occurs_in(mid, pat),
    ensures
        occurs_in(text, pat),
{
    let a = choose|a: int| occurs_at(text, mid, a);
    let b = choose|b: int| occurs_at(mid, pat, b);
    assert(text.subrange(a + b, a + b + pat.len()) =~= text.subrange(a, a + mid.len()).subrange(
        b,
        b + pat.len(),
    ));
    assert(occurs_at(text, pat, a + b));
}

/// The characters of `s`, in order.
pub fn chars_of(s: &str) -> (v: Vec<char>)
    ensures
        v@ == s@,
{
    let mut v: Vec<char> = Vec::new();
    for c in it: s.chars()
        invariant
            it.seq() == s@,
            v@ == it.seq().take(it.index()),
    {
        v.push(c);
    }
    v
}

/// Compares `pat` with the characters of `text` that start at `at`.
fn matches_at(text: &Vec<char>, pat: &Vec<char>, at: usize) -> (b: bool)
    requires
        at + pat@.len() <= text@.len(),
    ensures
        b == occurs_at(text@, pat@, at as int),
{
    let mut k: usize = 0;
    while k < pat.len()
        invariant
            k <= pat.len(),
            at + pat.len() <= text.len(),
            forall|j: int| 0 <= j < k ==> text@[at + j] == pat@[j],
        decreases pat.len() - k,
    {
        if text[at + k] != pat[k] {
            assert(text@.subrange(at as int, at + pat@.len())[k as int] != pat@[k as int]);
            return false;
        }
        k += 1;
    }
    assert(text@.subrange(at as int, at + pat@.len()) =~= pat@);
    true
}

/// Looks for `pat` in `text`, trying every offset from the left.
pub fn contains_chars(text: &Vec<char>, pat: &Vec<char>) -> (b: bool)
    ensures
        b == occurs_in(text@, pat@),
{
    if pat.len() > text.len() {
        return false;
    }
    let last: usize = text.len() - pat.len();
    let mut at: usize = 0;
    loop
        invariant
            last == text.len() - pat.len(),
            at <= last,
            forall|j: int| 0 <= j < at ==> !occurs_at(text@, pat@, j),
        decreases last - at,
    {
        if matches_at(text, pat, at) {
            return true;
        }
        if at == last {
            return false;
        }
        at += 1;
    }
}

} // verus!
