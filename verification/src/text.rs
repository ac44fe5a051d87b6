//! Small text helpers: appending one character to a `String`, comparing
//! two string slices, and a substring predicate with the lemmas the
//! rendering proofs need.

use vstd::prelude::*;

verus! {

/// Relies on `String::push` of std: appends exactly one character at
/// the end of the string.
#[verifier::external_body]
pub fn push_char(s: &mut String, c: char)
    ensures
        final(s)@ == old(s)@.push(c),
{
    s.push(c);
}

/// Character-for-character equality of two string slices.
pub fn str_eq(a: &str, b: &str) -> (r: bool)
    ensures
        r == (a@ == b@),
{
    let an = a.unicode_len();
    let bn = b.unicode_len();
    if an != bn {
        assert(a@ != b@);
        return false;
    }
    let mut i: usize = 0;
    while i < an
        invariant
            an == a@.len(),
            an == b@.len(),
            0 <= i <= an,
            forall|k: int| 0 <= k < i ==> a@[k] == b@[k],
        decreases an - i,
    {
        if a.get_char(i) != b.get_char(i) {
            return false;
        }
        i += 1;
    }
    assert(a@ =~= b@);
    true
}

/// `needle` occurs somewhere inside `hay` as a contiguous run.
pub open spec fn has_subseq(hay: Seq<char>, needle: Seq<char>) -> bool {
    exists|k: int|
        0 <= k && k + needle.len() <= hay.len() && #[trigger] hay.subrange(k, k + needle.len())
            == needle
}

/// A run found in the left part of a concatenation is found in the whole.
pub proof fn lemma_has_subseq_concat_left(a: Seq<char>, b: Seq<char>, needle: Seq<char>)
    requires
        has_subseq(a, needle),
    ensures
        has_subseq(a + b, needle),
{
    let k = choose|k: int|
        0 <= k && k + needle.len() <= a.len() && #[trigger] a.subrange(k, k + needle.len())
            == needle;
    assert((a + b).subrange(k, k + needle.len() as int) =~= a.subrange(k, k + needle.len() as int));
}

/// A run found in the right part of a concatenation is found in the whole.
pub proof fn lemma_has_subseq_concat_right(a: Seq<char>, b: Seq<char>, needle: Seq<char>)
    requires
        has_subseq(b, needle),
    ensures
        has_subseq(a + b, needle),
{
    let k = choose|k: int|
        0 <= k && k + needle.len() <= b.len() && #[trigger] b.subrange(k, k + needle.len())
            == needle;
    let j = a.len() as int + k;
    assert((a + b).subrange(j, j + needle.len() as int) =~= b.subrange(k, k + needle.len() as int));
}

/// A whole sequence is one of its own runs.
pub proof fn lemma_has_subseq_self(s: Seq<char>)
    ensures
        has_subseq(s, s),
{
    assert(s.subrange(0, 0 + s.len() as int) =~= s);
}

} // verus!
