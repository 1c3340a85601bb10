//! Case selection for `ln(n!)`, `C(n, k)` and `ln C(n, k)`.
//!
//! Each public function here settles, in integer arithmetic and with a
//! proof, which domain case applies to its arguments and which operands
//! the floating-point layer has to combine: whether `ln(n!)` is zero, a
//! logarithm of a table entry, or a log-gamma evaluation, and which three
//! log-factorials make up a binomial coefficient.  The floating-point
//! layer only interprets the returned value and never re-examines the
//! arguments.

use crate::table::{factorial_bits, factorial_bits_spec, MAX_ARG};
use vstd::prelude::*;

verus! {

/// How `ln(n!)` is to be evaluated for a given `n`.
pub enum LnFactorialEval {
    /// `n <= 1`: `n!` is `1`, so `ln(n!)` is exactly zero.
    Zero,
    /// `1 < n <= MAX_ARG`: `ln(n!)` is the natural logarithm of the
    /// double whose bit pattern is `bits`, the table entry for `n!`.
    Table { bits: u64 },
    /// `n > MAX_ARG`: `n!` itself overflows a double, so `ln(n!)` is
    /// `ln_gamma(n + 1)`, which stays finite and accurate; the addition
    /// is carried out in double precision by the floating-point layer.
    LnGamma { n: u64 },
}

/// The three factorial arguments whose log-factorials combine into a
/// binomial coefficient: `ln C(n, k) == ln(n!) - ln(k!) - ln((n - k)!)`.
pub struct BinomialTerms {
    pub n: u64,
    pub k: u64,
    pub n_minus_k: u64,
}

/// How `C(n, k)` is to be evaluated for a given `n` and `k`.
pub enum BinomialEval {
    /// `k > n`: there is no way to choose `k` items out of `n`, and the
    /// coefficient is exactly zero.
    Zero,
    /// `k <= n`: the coefficient is `exp` of the combined log-factorials
    /// of the terms, rounded to the nearest integer to recover the exact
    /// integer-valued double from the log-domain computation.
    Terms(BinomialTerms),
}

/// How `ln C(n, k)` is to be evaluated for a given `n` and `k`.
pub enum LnBinomialEval {
    /// `k > n`: the coefficient is zero, and its logarithm is negative
    /// infinity.
    NegativeInfinity,
    /// `k <= n`: the combined log-factorials of the terms, with no
    /// rounding, since log-domain values are not expected to be integers.
    Terms(BinomialTerms),
}

/// The terms of `C(n, k)` when they exist: for `k <= n` the triple
/// `(n, k, n - k)`, and nothing otherwise.
pub open spec fn binomial_terms_spec(n: u64, k: u64) -> Option<BinomialTerms> {
    if k <= n {
        Some(BinomialTerms { n: n, k: k, n_minus_k: (n - k) as u64 })
    } else {
        None
    }
}

/// Selects the evaluation case of `ln(n!)`: zero for `n <= 1`, the
/// logarithm of the factorial table entry up to `MAX_ARG`, and a
/// log-gamma evaluation of `n + 1` beyond it, where `n!` itself would
/// overflow but `ln(n!)` is still finite.
pub fn ln_factorial_eval(n: u64) -> (r: LnFactorialEval)
    ensures
        n <= 1 ==> r is Zero,
        1 < n <= MAX_ARG ==> (r matches LnFactorialEval::Table { bits } && bits
            == factorial_bits_spec(n)),
        n > MAX_ARG ==> (r matches LnFactorialEval::LnGamma { n: m } && m == n),
{
    if n <= 1 {
        LnFactorialEval::Zero
    } else if n > MAX_ARG {
        LnFactorialEval::LnGamma { n }
    } else {
        LnFactorialEval::Table { bits: factorial_bits(n) }
    }
}

/// Selects the evaluation case of `C(n, k)`: exactly zero when `k > n`,
/// and otherwise the terms `(n, k, n - k)` whose log-factorials the
/// floating-point layer combines and rounds.
pub fn binomial_eval(n: u64, k: u64) -> (r: BinomialEval)
    ensures
        r is Zero <==> k > n,
        r matches BinomialEval::Terms(t) ==> Some(t) == binomial_terms_spec(n, k),
{
    if k > n {
        BinomialEval::Zero
    } else {
        BinomialEval::Terms(BinomialTerms { n, k, n_minus_k: n - k })
    }
}

/// Selects the evaluation case of `ln C(n, k)`: negative infinity, the
/// logarithm of zero, when `k > n`, and otherwise the same terms as
/// `binomial_eval`, combined without rounding.
pub fn ln_binomial_eval(n: u64, k: u64) -> (r: LnBinomialEval)
    ensures
        r is NegativeInfinity <==> k > n,
        r matches LnBinomialEval::Terms(t) ==> Some(t) == binomial_terms_spec(n, k),
{
    if k > n {
        LnBinomialEval::NegativeInfinity
    } else {
        LnBinomialEval::Terms(BinomialTerms { n, k, n_minus_k: n - k })
    }
}

/// The binomial coefficient is symmetric in `k` and `n - k`: for
/// `k <= n`, the terms of `C(n, n - k)` are the terms of `C(n, k)` with
/// the two subtracted entries exchanged, so both coefficients are
/// evaluated from the same three log-factorials, and the leading term
/// `ln(n!)` is shared.
pub proof fn lemma_binomial_symmetry(n: u64, k: u64)
    requires
        k <= n,
    ensures
        binomial_terms_spec(n, k) == (Some(BinomialTerms {
            n: n,
            k: k,
            n_minus_k: (n - k) as u64,
        })),
        binomial_terms_spec(n, (n - k) as u64) == (Some(BinomialTerms {
            n: n,
            k: (n - k) as u64,
            n_minus_k: k,
        })),
{
}

} // verus!
