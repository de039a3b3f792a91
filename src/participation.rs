//! Aggregation of the sync committee's participation bitfield.

use vstd::prelude::*;

verus! {

/// The number of committee members whose flag is set.
///
/// Stated over the multiset of flags, so it does not depend on their order.
pub open spec fn participation_of(bits: Seq<bool>) -> nat {
    bits.to_multiset().count(true)
}

/// Counts the set flags of `bits` with a 64-bit accumulator.
pub fn count_participation(bits: &Vec<bool>) -> (r: u64)
    ensures
        r as nat == participation_of(bits@),
        r <= bits@.len(),
{
    proof {
        let empty = bits@.subrange(0, 0);
        empty.to_multiset_ensures();
        vstd::multiset::axiom_count_le_len(empty.to_multiset(), true);
    }
    let mut count: u64 = 0;
    let mut i: usize = 0;
    while i < bits.len()
        invariant
            i <= bits@.len(),
            count <= i,
            count as nat == participation_of(bits@.subrange(0, i as int)),
        decreases bits@.len() - i,
    {
        let prefix = Ghost(bits@.subrange(0, i as int));
        let flag = Ghost(bits@[i as int]);
        assert(bits@.subrange(0, i + 1) =~= prefix@.push(flag@));
        proof {
            vstd::seq_lib::to_multiset_build(prefix@, flag@);
            let m = prefix@.to_multiset();
            vstd::multiset::lemma_insert_increases_count_by_1(m, flag@);
            vstd::multiset::lemma_insert_other_elements_unchanged(m, flag@, true);
        }
        if bits[i] {
            count = count + 1;
        }
        i = i + 1;
    }
    assert(bits@.subrange(0, bits@.len() as int) =~= bits@);
    count
}

/// The participation count of a bitfield is unchanged by any rearrangement
/// of its flags.
pub proof fn lemma_participation_order_independent(a: Seq<bool>, b: Seq<bool>)
    requires
        a.to_multiset() =~= b.to_multiset(),
    ensures
        participation_of(a) == participation_of(b),
{
}

/// No more members participate than the committee has.
pub proof fn lemma_participation_within_committee(bits: Seq<bool>)
    ensures
        participation_of(bits) <= bits.len(),
{
    bits.to_multiset_ensures();
    vstd::multiset::axiom_count_le_len(bits.to_multiset(), true);
}

} // verus!
