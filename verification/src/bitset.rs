//! The packed bit storage: `fixedbitset::FixedBitSet`, seen as a sequence of
//! booleans.
//!
//! The contracts that this file gives to `FixedBitSet` and its functions are
//! stated, not proved: each restates what the source of `fixedbitset` 0.4
//! shows of one function, over the sequence [`bits_of`]. The lemmas on
//! [`count_true`] are proved.

use fixedbitset::FixedBitSet;
use vstd::prelude::*;

verus! {

/// `fixedbitset::FixedBitSet`, a fixed number of bits packed into `u32`
/// blocks. Its fields stay hidden.
#[verifier::external_type_specification]
#[verifier::external_body]
pub struct ExFixedBitSet(fixedbitset::FixedBitSet);

/// The bits that a `FixedBitSet` holds, in index order; its length is the
/// set's length in bits.
pub uninterp spec fn bits_of(set: FixedBitSet) -> Seq<bool>;

/// The number of `true` entries of a sequence.
pub open spec fn count_true(bits: Seq<bool>) -> nat
    decreases bits.len(),
{
    if bits.len() == 0 {
        0
    } else {
        count_true(bits.drop_last()) + if bits.last() {
            1nat
        } else {
            0nat
        }
    }
}

/// No more entries are `true` than there are entries.
pub proof fn lemma_count_true_bounded(bits: Seq<bool>)
    ensures
        count_true(bits) <= bits.len(),
    decreases bits.len(),
{
    if bits.len() > 0 {
        lemma_count_true_bounded(bits.drop_last());
    }
}

/// Where every entry is `value`, the count is the length for `true` and zero
/// for `false`.
pub proof fn lemma_count_true_uniform(bits: Seq<bool>, value: bool)
    requires
        forall|i: int| 0 <= i < bits.len() ==> bits[i] == value,
    ensures
        count_true(bits) == if value {
            bits.len()
        } else {
            0
        },
    decreases bits.len(),
{
    if bits.len() > 0 {
        lemma_count_true_uniform(bits.drop_last(), value);
    }
}

/// Writing one entry changes the count by that entry alone.
pub proof fn lemma_count_true_update(bits: Seq<bool>, index: int, value: bool)
    requires
        0 <= index < bits.len(),
    ensures
        count_true(bits.update(index, value)) + (if bits[index] {
            1int
        } else {
            0int
        }) == count_true(bits) + (if value {
            1int
        } else {
            0int
        }),
    decreases bits.len(),
{
    let written = bits.update(index, value);
    if index == bits.len() - 1 {
        assert(written.drop_last() =~= bits.drop_last());
    } else {
        assert(written.drop_last() =~= bits.drop_last().update(index, value));
        lemma_count_true_update(bits.drop_last(), index, value);
    }
}

/// Whether bit `offset` of a block is set, counting from the least
/// significant bit.
pub open spec fn block_bit(block: u32, offset: u32) -> bool {
    block & (1u32 << offset) != 0
}

/// The number of 32-bit blocks that hold `bits` bits.
pub open spec fn block_count(bits: nat) -> nat {
    (bits + 31) / 32
}

/// `FixedBitSet::with_capacity`: a set of `bits` bits, all clear.
pub assume_specification[ FixedBitSet::with_capacity ](bits: usize) -> (set: FixedBitSet)
    ensures
        bits_of(set) == Seq::new(bits as nat, |i: int| false),
;

/// `FixedBitSet::len`: the length in bits, not the number of set bits.
pub assume_specification[ FixedBitSet::len ](set: &FixedBitSet) -> (length: usize)
    ensures
        length == bits_of(*set).len(),
;

/// `FixedBitSet::toggle`: inverts one bit and leaves the others. The outside
/// function panics when `bit` is past the end, which `requires` rules out.
pub assume_specification[ FixedBitSet::toggle ](set: &mut FixedBitSet, bit: usize)
    requires
        bit < bits_of(*old(set)).len(),
    ensures
        bits_of(*final(set)) == bits_of(*old(set)).update(bit as int, !bits_of(*old(set))[bit as int]),
;

/// `FixedBitSet::set`: writes one bit and leaves the others. The outside
/// function panics when `bit` is past the end, which `requires` rules out.
pub assume_specification[ FixedBitSet::set ](set: &mut FixedBitSet, bit: usize, enabled: bool)
    requires
        bit < bits_of(*old(set)).len(),
    ensures
        bits_of(*final(set)) == bits_of(*old(set)).update(bit as int, enabled),
;

/// `FixedBitSet::as_slice`: the blocks themselves. Bit `i` of the set is bit
/// `i % 32` of block `i / 32`, and there are just enough blocks for the
/// length.
pub assume_specification[ FixedBitSet::as_slice ](set: &FixedBitSet) -> (blocks: &[u32])
    ensures
        blocks@.len() == block_count(bits_of(*set).len()),
        forall|i: int|
            0 <= i < bits_of(*set).len() ==> #[trigger] bits_of(*set)[i] == block_bit(
                blocks@[i / 32],
                (i % 32) as u32,
            ),
;

/// Indexing a `FixedBitSet`: the bit at `bit`. Past the end the outside crate
/// does not panic; nothing is claimed of what it answers there.
#[verifier::external_body]
pub(crate) fn bit_at(set: &FixedBitSet, bit: usize) -> (enabled: bool)
    ensures
        bit < bits_of(*set).len() ==> enabled == bits_of(*set)[bit as int],
{
    set[bit]
}

/// `FixedBitSet::count_ones` over the whole set (`..`): the number of set
/// bits.
#[verifier::external_body]
pub(crate) fn count_set(set: &FixedBitSet) -> (ones: usize)
    ensures
        ones == count_true(bits_of(*set)),
{
    set.count_ones(..)
}

} // verus!
