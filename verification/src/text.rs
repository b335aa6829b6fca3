//! Small helpers for lists of strings and their mathematical views.

use vstd::prelude::*;

verus! {

/// The character sequences of a list of strings, in order.
pub open spec fn texts(v: Seq<String>) -> Seq<Seq<char>> {
    Seq::new(v.len(), |i: int| v[i]@)
}

/// The character sequence of an optional string.
pub open spec fn opt_text(o: Option<String>) -> Option<Seq<char>> {
    match o {
        Some(s) => Some(s@),
        None => None,
    }
}

/// Concatenation of sequences is associative.
pub(crate) proof fn lemma_concat_assoc<A>(a: Seq<A>, b: Seq<A>, c: Seq<A>)
    ensures
        (a + b) + c == a + (b + c),
{
    assert((a + b) + c =~= a + (b + c));
}

/// A concatenation holds what either part holds.
pub(crate) proof fn lemma_concat_contains<A>(a: Seq<A>, b: Seq<A>, x: A)
    ensures
        (a + b).contains(x) <==> a.contains(x) || b.contains(x),
{
    if a.contains(x) {
        let i = choose|i: int| 0 <= i < a.len() && a[i] == x;
        assert((a + b)[i] == x);
    }
    if b.contains(x) {
        let i = choose|i: int| 0 <= i < b.len() && b[i] == x;
        assert((a + b)[a.len() + i] == x);
    }
    if (a + b).contains(x) {
        let i = choose|i: int| 0 <= i < (a + b).len() && (a + b)[i] == x;
        if i < a.len() {
            assert(a[i] == x);
        } else {
            assert(b[i - a.len()] == x);
        }
    }
}

/// Appends a copy of `s` to `v`.
pub(crate) fn push_text(v: &mut Vec<String>, s: &str)
    ensures
        texts(final(v)@) == texts(old(v)@).push(s@),
{
    v.push(s.to_owned());
    assert(texts(v@) =~= texts(old(v)@).push(s@));
}

/// Appends copies of all of `tail` to `v`, keeping their order.
pub(crate) fn append_texts(v: &mut Vec<String>, tail: &Vec<String>)
    ensures
        texts(final(v)@) == texts(old(v)@) + texts(tail@),
{
    let mut i: usize = 0;
    while i < tail.len()
        invariant
            i <= tail.len(),
            texts(v@) == texts(old(v)@) + texts(tail@.subrange(0, i as int)),
        decreases tail.len() - i,
    {
        push_text(v, tail[i].as_str());
        assert(texts(tail@.subrange(0, i + 1)) =~= texts(tail@.subrange(0, i as int)).push(
            tail@[i as int]@,
        ));
        assert(texts(v@) =~= texts(old(v)@) + texts(tail@.subrange(0, i + 1)));
        i = i + 1;
    }
    assert(tail@.subrange(0, i as int) =~= tail@);
}

/// Copies an optional string.
pub(crate) fn clone_opt_text(o: &Option<String>) -> (r: Option<String>)
    ensures
        opt_text(r) == opt_text(*o),
{
    match o {
        Some(s) => Some(s.clone()),
        None => None,
    }
}

} // verus!
