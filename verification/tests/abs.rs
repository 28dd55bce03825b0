use approx::{Abs, Double, Single};
use quickcheck::{quickcheck, TestResult};

fn single(x: f32) -> Single {
    Single::from_bits(x.to_bits())
}

fn double(x: f64) -> Double {
    Double::from_bits(x.to_bits())
}

// The whole comparison: the subtraction on the hardware, the verdict from
// the tolerance.
fn abs_eq32(lhs: f32, rhs: f32, tol: Abs<Single>) -> bool {
    tol.admits(&single(lhs - rhs))
}

fn abs_eq64(lhs: f64, rhs: f64, tol: Abs<Double>) -> bool {
    tol.admits(&double(lhs - rhs))
}

// A tolerance in the range (0, 1].
fn tol32(n: f32) -> Option<Abs<Single>> {
    if n.is_nan() {
        None
    } else {
        Some(Abs::tol(single((-n.abs()).exp2())))
    }
}

fn tol64(n: f64) -> Option<Abs<Double>> {
    if n.is_nan() {
        None
    } else {
        Some(Abs::tol(double((-n.abs()).exp2())))
    }
}

fn prop_single_nan(x: f32, n: f32) -> TestResult {
    match tol32(n) {
        None => TestResult::discard(),
        Some(tol) => {
            TestResult::from_bool(!abs_eq32(f32::NAN, x, tol) && !abs_eq32(x, f32::NAN, tol))
        }
    }
}

fn prop_double_nan(x: f64, n: f64) -> TestResult {
    match tol64(n) {
        None => TestResult::discard(),
        Some(tol) => {
            TestResult::from_bool(!abs_eq64(f64::NAN, x, tol) && !abs_eq64(x, f64::NAN, tol))
        }
    }
}

// An infinity minus itself is a NaN, so only finite numbers are their own
// neighbours.
fn prop_single_same(x: f32, n: f32) -> TestResult {
    match tol32(n) {
        Some(tol) if x.is_finite() => TestResult::from_bool(abs_eq32(x, x, tol)),
        _ => TestResult::discard(),
    }
}

fn prop_double_same(x: f64, n: f64) -> TestResult {
    match tol64(n) {
        Some(tol) if x.is_finite() => TestResult::from_bool(abs_eq64(x, x, tol)),
        _ => TestResult::discard(),
    }
}

fn prop_single_nan_nan(n: f32) -> TestResult {
    match tol32(n) {
        None => TestResult::discard(),
        Some(tol) => TestResult::from_bool(!abs_eq32(f32::NAN, f32::NAN, tol)),
    }
}

fn prop_double_nan_nan(n: f64) -> TestResult {
    match tol64(n) {
        None => TestResult::discard(),
        Some(tol) => TestResult::from_bool(!abs_eq64(f64::NAN, f64::NAN, tol)),
    }
}

fn prop_single_symmetric(a: u32, b: u32, t: u32) -> TestResult {
    match Abs::checked_tol(Single::from_bits(t)) {
        None => TestResult::discard(),
        Some(tol) => {
            let (x, y) = (f32::from_bits(a), f32::from_bits(b));
            TestResult::from_bool(abs_eq32(x, y, tol) == abs_eq32(y, x, tol))
        }
    }
}

fn prop_double_symmetric(a: u64, b: u64, t: u64) -> TestResult {
    match Abs::checked_tol(Double::from_bits(t)) {
        None => TestResult::discard(),
        Some(tol) => {
            let (x, y) = (f64::from_bits(a), f64::from_bits(b));
            TestResult::from_bool(abs_eq64(x, y, tol) == abs_eq64(y, x, tol))
        }
    }
}

fn prop_single_formula(a: f32, b: f32, t: u32) -> TestResult {
    match Abs::checked_tol(Single::from_bits(t)) {
        None => TestResult::discard(),
        Some(tol) => {
            let expected = (a - b).abs() <= f32::from_bits(t);
            TestResult::from_bool(abs_eq32(a, b, tol) == expected)
        }
    }
}

fn prop_double_formula(a: f64, b: f64, t: u64) -> TestResult {
    match Abs::checked_tol(Double::from_bits(t)) {
        None => TestResult::discard(),
        Some(tol) => {
            let expected = (a - b).abs() <= f64::from_bits(t);
            TestResult::from_bool(abs_eq64(a, b, tol) == expected)
        }
    }
}

fn prop_single_guard(t: u32) -> bool {
    Abs::checked_tol(Single::from_bits(t)).is_some() == (f32::from_bits(t) >= 0.0)
}

fn prop_double_guard(t: u64) -> bool {
    Abs::checked_tol(Double::from_bits(t)).is_some() == (f64::from_bits(t) >= 0.0)
}

#[test]
fn abs_single_nan() {
    quickcheck(prop_single_nan as fn(f32, f32) -> TestResult);
}

#[test]
fn abs_double_nan() {
    quickcheck(prop_double_nan as fn(f64, f64) -> TestResult);
}

#[test]
fn abs_single_same() {
    quickcheck(prop_single_same as fn(f32, f32) -> TestResult);
}

#[test]
fn abs_double_same() {
    quickcheck(prop_double_same as fn(f64, f64) -> TestResult);
}

#[test]
fn abs_single_nan_nan() {
    quickcheck(prop_single_nan_nan as fn(f32) -> TestResult);
}

#[test]
fn abs_double_nan_nan() {
    quickcheck(prop_double_nan_nan as fn(f64) -> TestResult);
}

#[test]
fn abs_single_symmetric() {
    quickcheck(prop_single_symmetric as fn(u32, u32, u32) -> TestResult);
}

#[test]
fn abs_double_symmetric() {
    quickcheck(prop_double_symmetric as fn(u64, u64, u64) -> TestResult);
}

#[test]
fn abs_agrees_with_the_formula_on_the_hardware() {
    quickcheck(prop_single_formula as fn(f32, f32, u32) -> TestResult);
    quickcheck(prop_double_formula as fn(f64, f64, u64) -> TestResult);
}

#[test]
fn abs_checked_tol_is_the_test_for_non_negative() {
    quickcheck(prop_single_guard as fn(u32) -> bool);
    quickcheck(prop_double_guard as fn(u64) -> bool);
}

#[test]
fn abs_concrete_single() {
    let tol = Abs::tol(single(0.001));
    assert!(abs_eq32(1.0, 1.0000001, tol));
    assert!(!abs_eq32(1.0, 2.0, tol));
}

#[test]
fn abs_concrete_double() {
    let tol = Abs::tol(double(0.001));
    assert!(abs_eq64(1.0, 1.0000001, tol));
    assert!(!abs_eq64(1.0, 2.0, tol));
}

#[test]
fn abs_threshold_is_inclusive() {
    let tol = Abs::tol(single(0.5));
    assert!(abs_eq32(1.0, 1.5, tol));
    assert!(abs_eq32(1.5, 1.0, tol));
    assert!(!abs_eq32(1.0, 1.5000001, tol));
    let tol = Abs::tol(double(0.25));
    assert!(abs_eq64(-2.0, -2.25, tol));
    assert!(!abs_eq64(-2.0, -2.2500000000000004, tol));
}

#[test]
fn abs_zero_threshold_admits_only_equal_numbers() {
    let tol = Abs::tol(single(0.0));
    assert!(abs_eq32(3.0, 3.0, tol));
    assert!(abs_eq32(0.0, -0.0, tol));
    assert!(!abs_eq32(3.0, 3.0000002, tol));
    let tol = Abs::tol(single(-0.0));
    assert!(abs_eq32(3.0, 3.0, tol));
    assert!(!abs_eq32(3.0, 3.0000002, tol));
}

#[test]
fn abs_infinite_threshold_admits_every_number() {
    let tol = Abs::tol(single(f32::INFINITY));
    assert!(abs_eq32(f32::MIN, f32::MAX, tol));
    assert!(abs_eq32(f32::NEG_INFINITY, f32::INFINITY, tol));
    assert!(!abs_eq32(f32::NAN, 0.0, tol));
}

#[test]
fn abs_an_infinity_is_not_near_itself() {
    let tol = Abs::tol(single(1.0));
    assert!(!abs_eq32(f32::INFINITY, f32::INFINITY, tol));
    let tol = Abs::tol(double(1.0));
    assert!(!abs_eq64(f64::NEG_INFINITY, f64::NEG_INFINITY, tol));
}

#[test]
fn abs_admits_judges_the_difference_handed_in() {
    let tol = Abs::tol(single(2.0));
    assert!(tol.admits(&single(2.0)));
    assert!(tol.admits(&single(-2.0)));
    assert!(tol.admits(&single(-0.0)));
    assert!(!tol.admits(&single(2.0000002)));
    assert!(!tol.admits(&single(f32::NEG_INFINITY)));
    assert!(!tol.admits(&single(f32::NAN)));
}

#[test]
fn abs_tolerance_keeps_its_threshold() {
    assert_eq!(Abs::tol(single(0.001)).threshold().to_bits(), 0.001f32.to_bits());
    assert_eq!(Abs::tol(single(-0.0)).threshold().to_bits(), 0x8000_0000);
    assert_eq!(Abs::tol(double(1e-5)).threshold().to_bits(), 1e-5f64.to_bits());
}

#[test]
fn abs_checked_tol_refuses_a_negative_threshold() {
    assert!(Abs::checked_tol(single(-0.001)).is_none());
    assert!(Abs::checked_tol(single(f32::NEG_INFINITY)).is_none());
    assert!(Abs::checked_tol(single(f32::NAN)).is_none());
    assert!(Abs::checked_tol(Single::from_bits(0x8000_0001)).is_none());
    assert!(Abs::checked_tol(double(-1.0)).is_none());
    assert!(Abs::checked_tol(double(f64::NAN)).is_none());
    assert!(Abs::checked_tol(single(0.0)).is_some());
    assert!(Abs::checked_tol(single(-0.0)).is_some());
    assert!(Abs::checked_tol(double(f64::INFINITY)).is_some());
    assert_eq!(
        Abs::checked_tol(single(0.25)).map(|t| t.threshold().to_bits()),
        Some(0.25f32.to_bits())
    );
}
