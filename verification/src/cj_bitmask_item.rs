//! The element type: one payload paired with one bitmask.

use crate::mask_bits::MaskBits;
use vstd::prelude::*;

verus! {

/// True iff every bit set in `mask` is also set in `bits`:
/// `(bits & mask) == mask`. The zero mask is contained in every value, and
/// containment is monotone with respect to bitwise subsets.
pub open spec fn spec_matches_mask<B: MaskBits>(bits: B, mask: B) -> bool {
    bits.bits_and(mask) == mask
}

/// `BitmaskItem` pairs a payload of type `T` with a bitmask of type `B`.
///
/// The bitmask can be used for filtering, categorization, or any other
/// bit-based tagging the caller gives it meaning for.
#[derive(Debug, Clone, Copy)]
pub struct BitmaskItem<B, T> where B: MaskBits {
    pub bitmask: B,
    pub item: T,
}

impl<B, T> BitmaskItem<B, T> where B: MaskBits {
    /// The AND-containment predicate of this element's own mask.
    pub open spec fn spec_matches(self, mask: B) -> bool {
        spec_matches_mask(self.bitmask, mask)
    }

    /// Creates a new `BitmaskItem<B, T>` with the given bitmask and payload.
    pub fn new(bitmask: B, item: T) -> (r: Self)
        ensures
            r == (BitmaskItem { bitmask, item }),
    {
        Self { bitmask, item }
    }

    /// Returns true iff all bits set in `mask` are also set in this
    /// element's bitmask: `(self.bitmask & mask) == mask`.
    pub fn matches_mask(&self, mask: &B) -> (r: bool)
        ensures
            r == self.spec_matches(*mask),
    {
        self.bitmask.matches_mask(mask)
    }

    /// Replaces the bitmask wholesale; the payload is untouched.
    pub fn set_mask(&mut self, bitmask: B)
        ensures
            final(self).bitmask == bitmask,
            final(self).item == old(self).item,
    {
        self.bitmask = bitmask;
    }
}

/// The all-zero mask is AND-contained in every element's bitmask, so it
/// matches every element.
pub proof fn lemma_zero_mask_matches<B: MaskBits, T>(e: BitmaskItem<B, T>)
    ensures
        e.spec_matches(B::zero()),
{
    e.bitmask.lemma_bits_and_zero();
}

/// Matching is monotone: if `m1` is a bitwise subset of `m2` and an element
/// matches `m2`, it also matches `m1`.
pub proof fn lemma_matches_mask_monotone<B: MaskBits, T>(e: BitmaskItem<B, T>, m1: B, m2: B)
    requires
        m1.bits_and(m2) == m1,
        e.spec_matches(m2),
    ensures
        e.spec_matches(m1),
{
    e.bitmask.lemma_bits_and_monotone(m1, m2);
}

} // verus!
