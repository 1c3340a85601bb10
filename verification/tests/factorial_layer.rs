//! Tests of the factorial layer: the table, the case selection, and the
//! floating-point values they produce.
//!
//! The helpers at the top interpret the verified results exactly as the
//! unverified floating-point layer does: a table lookup becomes
//! `f64::from_bits`, a `Table` case becomes the logarithm of the looked-up
//! double, and binomial terms are combined in the log domain.  The
//! `LnGamma` case needs the unverified log-gamma evaluator and is out of
//! reach here, so the helpers cover arguments up to the table bound.

use factorial::{
    binomial_eval, factorial_bits, ln_binomial_eval, ln_factorial_eval, BinomialEval,
    LnBinomialEval, LnFactorialEval, F64_INFINITY_BITS, MAX_ARG,
};

fn factorial(x: u64) -> f64 {
    f64::from_bits(factorial_bits(x))
}

fn ln_factorial(x: u64) -> f64 {
    match ln_factorial_eval(x) {
        LnFactorialEval::Zero => 0.0,
        LnFactorialEval::Table { bits } => f64::from_bits(bits).ln(),
        LnFactorialEval::LnGamma { n: _ } => {
            unreachable!("the log-gamma evaluator lives outside the verified crate")
        }
    }
}

fn binomial(n: u64, k: u64) -> f64 {
    match binomial_eval(n, k) {
        BinomialEval::Zero => 0.0,
        BinomialEval::Terms(t) => {
            (0.5 + (ln_factorial(t.n) - ln_factorial(t.k) - ln_factorial(t.n_minus_k)).exp())
                .floor()
        }
    }
}

fn ln_binomial(n: u64, k: u64) -> f64 {
    match ln_binomial_eval(n, k) {
        LnBinomialEval::NegativeInfinity => f64::NEG_INFINITY,
        LnBinomialEval::Terms(t) => {
            ln_factorial(t.n) - ln_factorial(t.k) - ln_factorial(t.n_minus_k)
        }
    }
}

#[test]
fn test_factorial_and_ln_factorial() {
    let mut factorial_acc = 1.0;
    for i in 1..171 {
        factorial_acc *= i as f64;
        assert_eq!(factorial(i), factorial_acc);
        assert_eq!(ln_factorial(i), factorial_acc.ln());
    }
}

#[test]
fn test_factorial_overflow() {
    assert_eq!(factorial(172), f64::INFINITY);
    assert_eq!(factorial(u64::MAX), f64::INFINITY);
}

#[test]
fn test_binomial() {
    assert_eq!(binomial(1, 1), 1.0);
    assert_eq!(binomial(5, 2), 10.0);
    assert_eq!(binomial(7, 3), 35.0);
    assert_eq!(binomial(1, 0), 1.0);
    assert_eq!(binomial(0, 1), 0.0);
    assert_eq!(binomial(5, 7), 0.0);
}

#[test]
fn test_ln_binomial() {
    assert_eq!(ln_binomial(1, 1), 1f64.ln());
    assert!((ln_binomial(5, 2) - 10f64.ln()).abs() <= 1e-14);
    assert!((ln_binomial(7, 3) - 35f64.ln()).abs() <= 1e-14);
    assert_eq!(ln_binomial(1, 0), 1f64.ln());
    assert_eq!(ln_binomial(0, 1), 0f64.ln());
    assert_eq!(ln_binomial(5, 7), 0f64.ln());
}

#[test]
fn test_factorial_small_values() {
    assert_eq!(factorial(0), 1.0);
    assert_eq!(factorial(1), 1.0);
    assert_eq!(factorial(2), 2.0);
    assert_eq!(factorial(5), 120.0);
    assert_eq!(factorial(10), 3628800.0);
}

#[test]
fn test_factorial_table_bounds() {
    assert_eq!(MAX_ARG, 170);
    assert!(factorial(170).is_finite());
    assert_eq!(factorial(170), 7.257415615307994e306);
    assert_eq!(factorial(171), f64::INFINITY);
    assert_eq!(f64::from_bits(F64_INFINITY_BITS), f64::INFINITY);
}

#[test]
fn test_ln_factorial_edge_cases() {
    assert_eq!(ln_factorial(0), 0.0);
    assert_eq!(ln_factorial(1), 0.0);
    assert_eq!(ln_factorial(2), 2f64.ln());
    assert!(matches!(ln_factorial_eval(0), LnFactorialEval::Zero));
    assert!(matches!(ln_factorial_eval(1), LnFactorialEval::Zero));
    assert!(matches!(ln_factorial_eval(2), LnFactorialEval::Table { .. }));
    assert!(matches!(ln_factorial_eval(170), LnFactorialEval::Table { .. }));
    assert!(matches!(ln_factorial_eval(171), LnFactorialEval::LnGamma { n: 171 }));
    assert!(matches!(
        ln_factorial_eval(u64::MAX),
        LnFactorialEval::LnGamma { n: u64::MAX }
    ));
}

#[test]
fn test_binomial_eval_cases() {
    match binomial_eval(7, 3) {
        BinomialEval::Terms(t) => {
            assert_eq!(t.n, 7);
            assert_eq!(t.k, 3);
            assert_eq!(t.n_minus_k, 4);
        }
        BinomialEval::Zero => panic!("7 choose 3 has terms"),
    }
    assert!(matches!(binomial_eval(3, 7), BinomialEval::Zero));
    assert!(matches!(ln_binomial_eval(3, 7), LnBinomialEval::NegativeInfinity));
    match ln_binomial_eval(7, 3) {
        LnBinomialEval::Terms(t) => {
            assert_eq!(t.n, 7);
            assert_eq!(t.k, 3);
            assert_eq!(t.n_minus_k, 4);
        }
        LnBinomialEval::NegativeInfinity => panic!("7 choose 3 has terms"),
    }
}

#[test]
fn test_binomial_empty_set() {
    assert_eq!(binomial(0, 0), 1.0);
    assert_eq!(ln_binomial(0, 0), 0.0);
}

#[test]
fn test_binomial_symmetry() {
    // While the coefficient is an exactly representable integer the
    // rounding step absorbs the log-domain drift and symmetry is exact.
    for k in 0..=10 {
        assert_eq!(binomial(10, k), binomial(10, 10 - k));
    }
    // Beyond 2^53 the rounded doubles can differ in the last places, so
    // symmetry only holds up to the accuracy of the log-domain route.
    for k in 0..=170u64 {
        let a = binomial(170, k);
        let b = binomial(170, 170 - k);
        assert!((a - b).abs() <= 1e-12 * a.abs());
    }
}
