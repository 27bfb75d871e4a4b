//! The mask capability: bitwise AND-containment over the fixed-width
//! unsigned integer types `u8` through `u128`.

use cj_common::cj_binary::bitbuf::CjMatchesMask;
use vstd::prelude::*;

verus! {

/// A fixed-width unsigned mask type: bitwise AND, an all-zero value, and the
/// AND-containment test, together with the two laws that the containment
/// test obeys on every implementing type.
pub trait MaskBits: Copy + Sized {
    /// Bitwise AND, as the contracts see it.
    spec fn bits_and(self, other: Self) -> Self;

    /// The all-zero-bits mask.
    spec fn zero() -> Self;

    /// True iff every bit set in `mask` is also set in `self`:
    /// `(self & mask) == mask`.
    fn matches_mask(&self, mask: &Self) -> (r: bool)
        ensures
            r == (self.bits_and(*mask) == *mask),
    ;

    /// The all-zero-bits mask, as a runtime value.
    fn zero_mask() -> (r: Self)
        ensures
            r == Self::zero(),
    ;

    /// AND with the all-zero mask yields the all-zero mask, so the zero mask
    /// is AND-contained in every value.
    proof fn lemma_bits_and_zero(self)
        ensures
            self.bits_and(Self::zero()) == Self::zero(),
    ;

    /// AND-containment is monotone: if `m1` is a bitwise subset of `m2` and
    /// `self` AND-contains `m2`, then `self` AND-contains `m1`.
    proof fn lemma_bits_and_monotone(self, m1: Self, m2: Self)
        requires
            m1.bits_and(m2) == m1,
            self.bits_and(m2) == m2,
        ensures
            self.bits_and(m1) == m1,
    ;
}

/// Relies on cj_common's `CjMatchesMask<u8>::matches_mask` for `u8`, whose
/// result is `(self & mask) == mask`.
#[verifier::external_body]
fn cj_matches_mask_u8(bits: u8, mask: u8) -> (r: bool)
    ensures
        r == ((bits & mask) == mask),
{
    CjMatchesMask::matches_mask(&bits, &mask)
}

/// Relies on cj_common's `CjMatchesMask<u16>::matches_mask` for `u16`, whose
/// result is `(self & mask) == mask`.
#[verifier::external_body]
fn cj_matches_mask_u16(bits: u16, mask: u16) -> (r: bool)
    ensures
        r == ((bits & mask) == mask),
{
    CjMatchesMask::matches_mask(&bits, &mask)
}

/// Relies on cj_common's `CjMatchesMask<u32>::matches_mask` for `u32`, whose
/// result is `(self & mask) == mask`.
#[verifier::external_body]
fn cj_matches_mask_u32(bits: u32, mask: u32) -> (r: bool)
    ensures
        r == ((bits & mask) == mask),
{
    CjMatchesMask::matches_mask(&bits, &mask)
}

/// Relies on cj_common's `CjMatchesMask<u64>::matches_mask` for `u64`, whose
/// result is `(self & mask) == mask`.
#[verifier::external_body]
fn cj_matches_mask_u64(bits: u64, mask: u64) -> (r: bool)
    ensures
        r == ((bits & mask) == mask),
{
    CjMatchesMask::matches_mask(&bits, &mask)
}

/// Relies on cj_common's `CjMatchesMask<u128>::matches_mask` for `u128`,
/// whose result is `(self & mask) == mask`.
#[verifier::external_body]
fn cj_matches_mask_u128(bits: u128, mask: u128) -> (r: bool)
    ensures
        r == ((bits & mask) == mask),
{
    CjMatchesMask::matches_mask(&bits, &mask)
}

impl MaskBits for u8 {
    open spec fn bits_and(self, other: u8) -> u8 {
        self & other
    }

    open spec fn zero() -> u8 {
        0u8
    }

    fn matches_mask(&self, mask: &u8) -> (r: bool) {
        cj_matches_mask_u8(*self, *mask)
    }

    fn zero_mask() -> (r: u8) {
        0u8
    }

    proof fn lemma_bits_and_zero(self) {
        let x: u8 = self;
        assert(x & 0u8 == 0u8) by (bit_vector);
    }

    proof fn lemma_bits_and_monotone(self, m1: u8, m2: u8) {
        let x: u8 = self;
        assert((m1 & m2 == m1 && x & m2 == m2) ==> x & m1 == m1) by (bit_vector);
    }
}

impl MaskBits for u16 {
    open spec fn bits_and(self, other: u16) -> u16 {
        self & other
    }

    open spec fn zero() -> u16 {
        0u16
    }

    fn matches_mask(&self, mask: &u16) -> (r: bool) {
        cj_matches_mask_u16(*self, *mask)
    }

    fn zero_mask() -> (r: u16) {
        0u16
    }

    proof fn lemma_bits_and_zero(self) {
        let x: u16 = self;
        assert(x & 0u16 == 0u16) by (bit_vector);
    }

    proof fn lemma_bits_and_monotone(self, m1: u16, m2: u16) {
        let x: u16 = self;
        assert((m1 & m2 == m1 && x & m2 == m2) ==> x & m1 == m1) by (bit_vector);
    }
}

impl MaskBits for u32 {
    open spec fn bits_and(self, other: u32) -> u32 {
        self & other
    }

    open spec fn zero() -> u32 {
        0u32
    }

    fn matches_mask(&self, mask: &u32) -> (r: bool) {
        cj_matches_mask_u32(*self, *mask)
    }

    fn zero_mask() -> (r: u32) {
        0u32
    }

    proof fn lemma_bits_and_zero(self) {
        let x: u32 = self;
        assert(x & 0u32 == 0u32) by (bit_vector);
    }

    proof fn lemma_bits_and_monotone(self, m1: u32, m2: u32) {
        let x: u32 = self;
        assert((m1 & m2 == m1 && x & m2 == m2) ==> x & m1 == m1) by (bit_vector);
    }
}

impl MaskBits for u64 {
    open spec fn bits_and(self, other: u64) -> u64 {
        self & other
    }

    open spec fn zero() -> u64 {
        0u64
    }

    fn matches_mask(&self, mask: &u64) -> (r: bool) {
        cj_matches_mask_u64(*self, *mask)
    }

    fn zero_mask() -> (r: u64) {
        0u64
    }

    proof fn lemma_bits_and_zero(self) {
        let x: u64 = self;
        assert(x & 0u64 == 0u64) by (bit_vector);
    }

    proof fn lemma_bits_and_monotone(self, m1: u64, m2: u64) {
        let x: u64 = self;
        assert((m1 & m2 == m1 && x & m2 == m2) ==> x & m1 == m1) by (bit_vector);
    }
}

impl MaskBits for u128 {
    open spec fn bits_and(self, other: u128) -> u128 {
        self & other
    }

    open spec fn zero() -> u128 {
        0u128
    }

    fn matches_mask(&self, mask: &u128) -> (r: bool) {
        cj_matches_mask_u128(*self, *mask)
    }

    fn zero_mask() -> (r: u128) {
        0u128
    }

    proof fn lemma_bits_and_zero(self) {
        let x: u128 = self;
        assert(x & 0u128 == 0u128) by (bit_vector);
    }

    proof fn lemma_bits_and_monotone(self, m1: u128, m2: u128) {
        let x: u128 = self;
        assert((m1 & m2 == m1 && x & m2 == m2) ==> x & m1 == m1) by (bit_vector);
    }
}

} // verus!
