//! Verified integer-side core of a factorial / binomial library.
//!
//! The library evaluates `n!`, `ln(n!)`, the binomial coefficient
//! `C(n, k)` and its logarithm for non-negative integer arguments, with
//! saturating sentinels instead of errors: `n!` is positive infinity once
//! it leaves the finite range of a double, `C(n, k)` is zero and
//! `ln C(n, k)` negative infinity when `k > n`.
//!
//! Floating-point arithmetic itself cannot be verified here, so the crate
//! is split along that line.  Everything these functions decide in integer
//! arithmetic is in this crate, with proofs: which domain case applies to
//! an argument, the table of factorial bit patterns, the bookkeeping of
//! which log-factorials are combined for a binomial coefficient, and the
//! branch selection of the Lanczos gamma evaluator, made on the IEEE 754
//! bit pattern of the argument.  A thin unverified layer maps those
//! results onto `f64` (`from_bits`, `ln`, `exp`, and the Lanczos series
//! themselves, used for `ln(n!)` beyond the table).

pub mod eval;
pub mod gamma;
pub mod table;

pub use eval::{
    binomial_eval, binomial_terms_spec, lemma_binomial_symmetry, ln_binomial_eval,
    ln_factorial_eval, BinomialEval, BinomialTerms, LnBinomialEval, LnFactorialEval,
};
pub use gamma::{below_half_bits, is_nan_bits, uses_reflection};
pub use table::{factorial_bits, factorial_bits_spec, F64_INFINITY_BITS, MAX_ARG};
