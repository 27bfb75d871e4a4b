//! A growable sequence that pairs every stored value with a fixed-width
//! bitmask, for bit-pattern-based filtering and categorization.
//!
//! The mask type may be any of the unsigned integer types `u8` through
//! `u128`; the payload type is unconstrained. Elements can be pushed with or
//! without a mask (the mask defaults to the all-zero value), and the cursor
//! types can skip ahead to the next element whose mask AND-contains a
//! caller-supplied mask.

pub mod cj_bitmask_item;
pub mod cj_bitmask_vec;
pub mod mask_bits;

pub use cj_bitmask_item::BitmaskItem;
pub use cj_bitmask_vec::BitmaskVec;
pub use cj_bitmask_vec::BitmaskVecIter;
pub use cj_bitmask_vec::BitmaskVecIterMut;
pub use cj_bitmask_vec::BitmaskVecIterWithMask;
pub use cj_bitmask_vec::BitmaskVecIterWithMaskMut;
pub use mask_bits::MaskBits;

use vstd::prelude::*;

verus! {

/// Anchor type under which the crate-level documentation examples are
/// gathered when they are compiled and run.
pub struct ReadmeDoctests;

} // verus!
