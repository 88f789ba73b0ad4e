use vstd::prelude::*;
use vstd::seq_lib::group_to_multiset_ensures;
use crate::block::SolanaBlock;

verus! {

broadcast use group_to_multiset_ensures;

/// Slot numbers never decrease from front to back.
pub open spec fn sorted_by_slot(s: Seq<SolanaBlock>) -> bool {
    forall|i: int, j: int| 0 <= i <= j < s.len() ==> s[i].slot <= s[j].slot
}

/// Index of a block with the smallest slot among `v` (the first such one).
fn min_slot_index(v: &Vec<SolanaBlock>) -> (m: usize)
    requires
        v@.len() > 0,
    ensures
        m < v@.len(),
        forall|j: int| 0 <= j < v@.len() ==> v@[m as int].slot <= v@[j].slot,
{
    let mut m: usize = 0;
    let mut i: usize = 1;
    while i < v.len()
        invariant
            m < i <= v@.len(),
            forall|j: int| 0 <= j < i ==> v@[m as int].slot <= v@[j].slot,
        decreases v@.len() - i,
    {
        if v[i].slot < v[m].slot {
            m = i;
        }
        i += 1;
    }
    m
}

/// Order blocks by ascending slot number. The result holds exactly the given
/// blocks (as a multiset) and is sorted by slot.
pub fn organize_blocks(blocks: Vec<SolanaBlock>) -> (r: Vec<SolanaBlock>)
    ensures
        sorted_by_slot(r@),
        r@.to_multiset() == blocks@.to_multiset(),
{
    let ghost all = blocks@;
    let mut rest = blocks;
    let mut out: Vec<SolanaBlock> = Vec::new();
    while rest.len() > 0
        invariant
            out@.to_multiset().add(rest@.to_multiset()) == all.to_multiset(),
            sorted_by_slot(out@),
            forall|i: int, j: int|
                0 <= i < out@.len() && 0 <= j < rest@.len() ==> out@[i].slot <= rest@[j].slot,
        decreases rest@.len(),
    {
        let ghost out_pre = out@;
        let ghost rest_pre = rest@;
        let m = min_slot_index(&rest);
        let x = rest.remove(m);
        out.push(x);
        proof {
            assert(rest_pre.to_multiset().count(x) > 0) by {
                assert(rest_pre.contains(x));
            }
            assert(out@.to_multiset() =~= out_pre.to_multiset().insert(x));
            assert(rest@.to_multiset() =~= rest_pre.to_multiset().remove(x));
            assert(out@.to_multiset().add(rest@.to_multiset()) =~= all.to_multiset());
        }
    }
    out
}

} // verus!
