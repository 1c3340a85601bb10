//! Tests that the verified bit-level branch selection of the gamma
//! evaluator agrees with the floating-point comparison it stands for:
//! `uses_reflection` on the bit pattern of `x` must decide exactly as
//! `x < 0.5` does, with a NaN argument taking the direct branch.

use factorial::uses_reflection;

#[test]
fn test_reflection_branch_matches_float_comparison() {
    let samples: [f64; 20] = [
        0.0,
        -0.0,
        0.5,
        0.49999999999999994, // the largest double below one half
        0.5000000000000001,
        5e-324, // the smallest positive subnormal
        f64::MIN_POSITIVE,
        1.000001e-35,
        0.1,
        1.0,
        2.0,
        10.900511,
        170.5,
        1e7,
        f64::MAX,
        -1.5,
        -4.8,
        f64::MIN,
        f64::INFINITY,
        f64::NEG_INFINITY,
    ];
    for &x in samples.iter() {
        assert_eq!(uses_reflection(x.to_bits()), x < 0.5);
    }
}

#[test]
fn test_reflection_branch_nan() {
    // Every comparison on a NaN is false, so a NaN argument must take
    // the direct branch, which propagates it through its arithmetic.
    assert!(!uses_reflection(f64::NAN.to_bits()));
    assert!(!uses_reflection((-f64::NAN).to_bits()));
    assert!(!uses_reflection((0.0f64 / 0.0f64).to_bits()));
}
