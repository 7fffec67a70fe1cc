//! Small copying helpers over byte strings and id collections.

use std::collections::HashSet;
use vstd::std_specs::iter::IteratorSpec;
use vstd::prelude::*;

verus! {

broadcast use vstd::std_specs::hash::group_hash_axioms;

/// A copy of a byte string.
pub fn copy_bytes(v: &Vec<u8>) -> (r: Vec<u8>)
    ensures
        r@ == v@,
{
    let r = v.clone();
    assert(r@ =~= v@);
    r
}

/// A copy of a list of ids.
pub fn copy_ids(v: &Vec<u64>) -> (r: Vec<u64>)
    ensures
        r@ == v@,
{
    let r = v.clone();
    assert(r@ =~= v@);
    r
}

/// The set of the ids in a list.
pub fn ids_to_set(v: &Vec<u64>) -> (r: HashSet<u64>)
    ensures
        r@ == v@.to_set(),
{
    let mut s: HashSet<u64> = HashSet::new();
    for i in 0..v.len()
        invariant
            s@ == v@.subrange(0, i as int).to_set(),
    {
        s.insert(v[i]);
        proof {
            assert(v@.subrange(0, i + 1) == v@.subrange(0, i as int).push(v@[i as int]));
            v@.subrange(0, i as int).lemma_push_to_set_commute(v@[i as int]);
        }
    }
    assert(v@.subrange(0, v@.len() as int) == v@);
    s
}

/// The ids of a set, each once, in the set's iteration order.
pub fn set_to_ids(s: &HashSet<u64>) -> (r: Vec<u64>)
    ensures
        r@.no_duplicates(),
        r@.to_set() == s@,
{
    let mut out: Vec<u64> = Vec::new();
    let ghost keys = vstd::std_specs::hash::spec_hash_keys_iter(s).remaining();
    for k in it: s.iter()
        invariant
            it.seq() == keys,
            out@.len() == it.index(),
            forall|j: int| 0 <= j < it.index() ==> out@[j] == *#[trigger] keys[j],
    {
        out.push(*k);
    }
    proof {
        assert(out@ =~= keys.unref());
    }
    out
}


/// An element is in a sequence with `x` pushed on exactly when it is `x` or
/// was in the sequence before.
pub proof fn lemma_push_contains<A>(s: Seq<A>, x: A, k: A)
    ensures
        s.push(x).contains(k) <==> (s.contains(k) || k == x),
{
    if s.contains(k) {
        let j: int = choose|j: int| 0 <= j < s.len() && s[j] == k;
        assert(s.push(x)[j] == k);
    }
    if k == x {
        assert(s.push(x)[s.len() as int] == k);
    }
    if s.push(x).contains(k) {
        let j: int = choose|j: int| 0 <= j < s.push(x).len() && s.push(x)[j] == k;
        if j < s.len() {
            assert(s[j] == k);
        }
    }
}

} // verus!
