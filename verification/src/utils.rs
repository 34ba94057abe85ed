//! Turning uniform 32-bit words into indices.

use vstd::prelude::*;

verus! {

/// The number of values that a uniform word can take, `2^32`.
pub const WORD_RANGE: u64 = 0x1_0000_0000;

/// The index that a uniform word selects below `bound`: the word `w` stands
/// for the real `w / 2^32` in `[0, 1)`, which is scaled by `bound` and
/// truncated.
pub open spec fn scaled_draw(word: u32, bound: u32) -> int {
    (word * bound) / (WORD_RANGE as int)
}

/// A scaled draw lies below its bound.
pub proof fn lemma_scaled_draw_below_bound(word: u32, bound: u32)
    requires
        bound > 0,
    ensures
        0 <= scaled_draw(word, bound) < bound,
{
    assert(0 <= word * bound < 0x1_0000_0000 * bound) by (nonlinear_arith)
        requires
            0 <= word < 0x1_0000_0000,
            bound > 0,
    ;
}

/// An index in `[0, max)` selected by a uniform word, and 0 when `max` is 0.
pub fn random_u32_up_to(max: u32, word: u32) -> (index: u32)
    ensures
        index == scaled_draw(word, max),
        max > 0 ==> index < max,
{
    assert(word * max <= 0xffff_ffff * 0xffff_ffff) by (nonlinear_arith)
        requires
            0 <= word <= 0xffff_ffff,
            0 <= max <= 0xffff_ffff,
    ;
    if max > 0 {
        proof {
            lemma_scaled_draw_below_bound(word, max);
        }
    }
    let product: u64 = word as u64 * max as u64;
    (product / WORD_RANGE) as u32
}

} // verus!
