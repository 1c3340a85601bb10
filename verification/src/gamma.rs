//! The verified share of the Lanczos gamma evaluator: branch selection.
//!
//! The evaluator has exactly two branches, and picking the right one is a
//! correctness concern of its own: the reflection formula
//! `gamma(x) = pi / (sin(pi * x) * gamma(1 - x))` is mathematically valid
//! only below one half, and a NaN argument must fall through to the
//! direct series so that its arithmetic propagates the NaN.  The
//! comparison `x < 0.5` is decidable in pure integer arithmetic on the
//! IEEE 754 bit pattern of `x`, so the decision is made here, with a
//! proof; the floating-point series themselves stay in the unverified
//! layer.  That the bit-level decision agrees with the floating-point
//! comparison is checked by the crate's tests on both branches' edges.

use vstd::prelude::*;

verus! {

/// The sign bit of a 64-bit double.
pub const F64_SIGN_MASK: u64 = 0x8000000000000000;

/// The exponent field of a 64-bit double: all ones exactly for
/// infinities and NaNs.
pub const F64_EXP_MASK: u64 = 0x7FF0000000000000;

/// The fraction field of a 64-bit double: together with an all-ones
/// exponent, a non-zero fraction makes a NaN.
pub const F64_FRAC_MASK: u64 = 0x000FFFFFFFFFFFFF;

/// The bit pattern of the double `0.5`, the boundary between the
/// reflection formula and the direct Lanczos series.
pub const F64_ONE_HALF_BITS: u64 = 0x3FE0000000000000;

/// The bit pattern encodes an IEEE 754 NaN: an all-ones exponent with a
/// non-zero fraction.
pub open spec fn is_nan_bits(bits: u64) -> bool {
    bits & F64_EXP_MASK == F64_EXP_MASK && bits & F64_FRAC_MASK != 0
}

/// The bit pattern encodes a double below one half: any value with the
/// sign bit set (every negative double is below one half, and so is
/// negative zero), or a non-negative one whose pattern is below the
/// pattern of one half, since non-negative doubles, from zero through
/// the subnormals up to infinity, order exactly as their bit patterns
/// do.  A NaN is not below one half: every comparison on it is false.
pub open spec fn below_half_bits(bits: u64) -> bool {
    !is_nan_bits(bits) && (bits & F64_SIGN_MASK != 0 || bits < F64_ONE_HALF_BITS)
}

/// Decides, from the bit pattern of the argument, which branch of the
/// Lanczos evaluation applies: the reflection formula for arguments
/// below one half, the direct series for everything else, a NaN
/// argument included, whose arithmetic then propagates the NaN.
pub fn uses_reflection(bits: u64) -> (r: bool)
    ensures
        r == below_half_bits(bits),
{
    let nan: bool = (bits & F64_EXP_MASK) == F64_EXP_MASK && (bits & F64_FRAC_MASK) != 0;
    !nan && ((bits & F64_SIGN_MASK) != 0 || bits < F64_ONE_HALF_BITS)
}

} // verus!
