//! Joining fragments kept by their offset, in increasing offset order.
use vstd::prelude::*;
use std::collections::BTreeMap;
use crate::wire::push_all;
use vstd::std_specs::cmp::OrdSpec;
use vstd::std_specs::iter::IteratorSpec;

verus! {

broadcast use vstd::std_specs::btree::group_btree_axioms;

/// `s` lists the fragments of `m`, each once, by increasing offset.
pub open spec fn ordered_fragments(m: Map<u32, Seq<u8>>, s: Seq<(u32, Seq<u8>)>) -> bool {
    &&& forall|i: int, j: int| 0 <= i < j < s.len() ==> s[i].0 < s[j].0
    &&& forall|i: int| 0 <= i < s.len() ==> m.contains_key(#[trigger] s[i].0) && m[s[i].0] == s[i].1
    &&& forall|k: u32| #[trigger] m.contains_key(k) ==> exists|i: int| 0 <= i < s.len() && s[i].0 == k
}

/// The bytes of the fragments of `s`, one after another.
pub open spec fn joined(s: Seq<(u32, Seq<u8>)>) -> Seq<u8>
    decreases s.len(),
{
    if s.len() == 0 {
        Seq::empty()
    } else {
        joined(s.drop_last()) + s.last().1
    }
}

/// The fragments of a map as values.
pub open spec fn fragment_values(m: BTreeMap<u32, Vec<u8>>) -> Map<u32, Seq<u8>> {
    m@.map_values(|v: Vec<u8>| v@)
}

proof fn lemma_u32_order()
    ensures
        vstd::laws_cmp::obeys_cmp::<u32>(),
{
    broadcast use vstd::laws_cmp::group_laws_cmp;
}

proof fn lemma_increasing_keys(keys: Seq<u32>, i: int, j: int)
    requires
        vstd::std_specs::btree::increasing_seq(keys),
        0 <= i < j < keys.len(),
    ensures
        keys[i] < keys[j],
{
    lemma_u32_order();
    assert(keys[i].cmp_spec(&keys[j]) is Less);
}

/// The fragments of `frags` joined by increasing offset.
pub fn join_fragments(frags: &BTreeMap<u32, Vec<u8>>) -> (r: Vec<u8>)
    ensures
        exists|s: Seq<(u32, Seq<u8>)>| ordered_fragments(fragment_values(*frags), s) && r@ == joined(s),
{
    proof {
        lemma_u32_order();
    }
    let mut data: Vec<u8> = Vec::new();
    let ghost pairs = frags.iter().remaining();
    let ghost s = pairs.map_values(|kv: (&u32, &Vec<u8>)| (*kv.0, kv.1@));
    for kv in it: frags.iter()
        invariant
            it.seq() == pairs,
            s == pairs.map_values(|kv: (&u32, &Vec<u8>)| (*kv.0, kv.1@)),
            data@ == joined(s.subrange(0, it.index() as int)),
    {
        let (_, frag) = kv;
        push_all(&mut data, frag.as_slice());
        assert(s.subrange(0, it.index() + 1).drop_last() =~= s.subrange(0, it.index() as int));
    }
    proof {
        let m = fragment_values(*frags);
        assert(s.subrange(0, s.len() as int) =~= s);
        let keys = pairs.map_values(|kv: (&u32, &Vec<u8>)| *kv.0);
        assert forall|i: int, j: int| 0 <= i < j < s.len() implies s[i].0 < s[j].0 by {
            assert(keys[i] == s[i].0 && keys[j] == s[j].0);
            lemma_increasing_keys(keys, i, j);
        }
        assert forall|i: int| 0 <= i < s.len() implies m.contains_key(#[trigger] s[i].0) && m[s[i].0]
            == s[i].1 by {
            assert(frags@.contains_key(*pairs[i].0) && frags@[*pairs[i].0] == *pairs[i].1);
        }
        assert forall|k: u32| #[trigger] m.contains_key(k) implies exists|i: int|
            0 <= i < s.len() && s[i].0 == k by {
            assert(pairs.contains((&k, &frags@[k])));
            let i = choose|i: int| 0 <= i < pairs.len() && pairs[i] == (&k, &frags@[k]);
            assert(s[i].0 == k);
        }
        assert(ordered_fragments(m, s));
    }
    data
}

} // verus!
