//! The sets that track numbered labels, kept in hierarchical bit sets of
//! the `hibitset` crate.
//!
//! Verus does not look inside a bit set. What it holds is named by
//! `bitset_members`, and each function here states, without proof, what the
//! operation of `hibitset::BitSet` that it calls does to that set.
use vstd::prelude::*;

verus! {

/// Number of labels, and the bound that label numbers stay below.
pub const LABEL_COUNT: usize = 1000;

/// The greatest index that a bit set is asked to hold here. `hibitset`
/// accepts indices up to `usize**4`, which is more on every host.
pub const MAX_BIT: u32 = 1_048_575;

#[verifier::external_type_specification]
#[verifier::external_body]
pub struct ExBitSet(hibitset::BitSet);

/// The indices that a bit set holds.
pub uninterp spec fn bitset_members(b: hibitset::BitSet) -> Set<u32>;

/// `hibitset::BitSet::with_capacity`: an empty set, allocated for indices
/// up to `max`. The crate panics beyond its index limit, so `max` stays
/// below it.
#[verifier::external_body]
pub(crate) fn bitset_with_capacity(max: u32) -> (r: hibitset::BitSet)
    requires
        max <= MAX_BIT,
    ensures
        bitset_members(r) == Set::<u32>::empty(),
{
    hibitset::BitSet::with_capacity(max)
}

/// `hibitset::BitSet::add`: puts `id` into the set and returns whether it
/// was there already. The crate panics beyond its index limit, so `id`
/// stays below it.
#[verifier::external_body]
pub(crate) fn bitset_add(b: &mut hibitset::BitSet, id: u32) -> (r: bool)
    requires
        id <= MAX_BIT,
    ensures
        r == bitset_members(*old(b)).contains(id),
        bitset_members(*final(b)) == bitset_members(*old(b)).insert(id),
{
    b.add(id)
}

/// `hibitset::BitSet::remove`: takes `id` out of the set and returns
/// whether it was there.
#[verifier::external_body]
pub(crate) fn bitset_remove(b: &mut hibitset::BitSet, id: u32) -> (r: bool)
    ensures
        r == bitset_members(*old(b)).contains(id),
        bitset_members(*final(b)) == bitset_members(*old(b)).remove(id),
{
    b.remove(id)
}

/// `hibitset::BitSet::contains`: is `id` in the set?
#[verifier::external_body]
pub(crate) fn bitset_contains(b: &hibitset::BitSet, id: u32) -> (r: bool)
    ensures
        r == bitset_members(*b).contains(id),
{
    b.contains(id)
}

/// `hibitset::BitSet::clear`: empties the set.
#[verifier::external_body]
pub(crate) fn bitset_clear(b: &mut hibitset::BitSet)
    ensures
        bitset_members(*final(b)) == Set::<u32>::empty(),
{
    b.clear()
}

/// `hibitset::BitSetLike::is_empty`: does the set hold nothing? The crate
/// answers from its top layer, which has a bit set exactly when some index
/// below it is in the set.
#[verifier::external_body]
pub(crate) fn bitset_is_empty(b: &hibitset::BitSet) -> (r: bool)
    ensures
        r == (bitset_members(*b) =~= Set::<u32>::empty()),
{
    hibitset::BitSetLike::is_empty(b)
}

/// Is `n` the number of a label? Label 0 is reserved.
pub open spec fn is_label(n: isize) -> bool {
    0 < n < LABEL_COUNT
}

} // verus!
