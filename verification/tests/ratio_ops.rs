//! Checks of the exact ratio type: ordering, absolute difference, and the
//! overflow guard at the integer-width boundary.

use liquidity_depth::ratio::Slippage;
use liquidity_depth::ratio::SlippageError;
use liquidity_depth::ratio::absolute_difference;
use liquidity_depth::ratio::less_or_equal;

const HALF_WIDTH: u128 = 170141183460469231731687303715884105728; // 2^127

#[test]
fn less_or_equal_orders_simple_ratios() {
    let a = Slippage::new(1, 2);
    let b = Slippage::new(2, 3);
    assert_eq!(less_or_equal(&a, &b), Ok(true));
    assert_eq!(less_or_equal(&b, &a), Ok(false));
}

#[test]
fn less_or_equal_sees_equal_values_in_different_forms() {
    let a = Slippage::new(1, 2);
    let b = Slippage::new(2, 4);
    assert_eq!(less_or_equal(&a, &b), Ok(true));
    assert_eq!(less_or_equal(&b, &a), Ok(true));
}

#[test]
fn less_or_equal_rejects_zero_denominator() {
    let a = Slippage::new(1, 0);
    let b = Slippage::new(1, 2);
    assert_eq!(less_or_equal(&a, &b), Err(SlippageError::DivisionByZero));
    assert_eq!(less_or_equal(&b, &a), Err(SlippageError::DivisionByZero));
}

#[test]
fn less_or_equal_reports_overflow_at_the_width_boundary() {
    // 2^127 * 7 exceeds the 128-bit width: the comparison must fail, not wrap.
    let a = Slippage::new(HALF_WIDTH, 3);
    let b = Slippage::new(5, 7);
    assert_eq!(less_or_equal(&a, &b), Err(SlippageError::Overflow));
    // The mirrored comparison hits the same product on the other side.
    assert_eq!(less_or_equal(&b, &a), Err(SlippageError::Overflow));
}

#[test]
fn less_or_equal_still_answers_just_inside_the_width() {
    // 2^127 * 1 and 2^127 * 1 both fit: near the boundary but in range.
    let a = Slippage::new(HALF_WIDTH, 1);
    let b = Slippage::new(HALF_WIDTH, 1);
    assert_eq!(less_or_equal(&a, &b), Ok(true));
    let c = Slippage::new(1, 1);
    assert_eq!(less_or_equal(&a, &c), Ok(false));
    assert_eq!(less_or_equal(&c, &a), Ok(true));
}

#[test]
fn ordering_is_total_over_sample_ratios() {
    // a <= b holds exactly when b <= a fails or the values are equal.
    let samples: [(u128, u128); 6] = [(0, 1), (1, 2), (2, 4), (3, 4), (5, 3), (5, 5)];
    for &(n1, d1) in samples.iter() {
        for &(n2, d2) in samples.iter() {
            let a = Slippage::new(n1, d1);
            let b = Slippage::new(n2, d2);
            let forward = less_or_equal(&a, &b).unwrap();
            let backward = less_or_equal(&b, &a).unwrap();
            let equal_value = n1 * d2 == n2 * d1;
            assert_eq!(forward, !backward || equal_value);
        }
    }
}

#[test]
fn absolute_difference_subtracts_the_smaller_side() {
    let a = Slippage::new(3, 4);
    let b = Slippage::new(1, 2);
    // |3/4 - 1/2| = (3*2 - 1*4) / (4*2) = 2/8, unreduced.
    assert_eq!(absolute_difference(&a, &b), Ok(Slippage::new(2, 8)));
    assert_eq!(absolute_difference(&b, &a), Ok(Slippage::new(2, 8)));
}

#[test]
fn absolute_difference_of_equal_values_is_zero() {
    let a = Slippage::new(1, 2);
    let b = Slippage::new(2, 4);
    assert_eq!(absolute_difference(&a, &b), Ok(Slippage::new(0, 8)));
}

#[test]
fn absolute_difference_rejects_zero_denominator() {
    let a = Slippage::new(1, 2);
    let b = Slippage::new(1, 0);
    assert_eq!(absolute_difference(&a, &b), Err(SlippageError::DivisionByZero));
}

#[test]
fn absolute_difference_reports_overflow_in_the_common_denominator() {
    // The cross products fit, but 2^127 * 4 does not: Overflow, never a wrap.
    let a = Slippage::new(1, HALF_WIDTH);
    let b = Slippage::new(1, 4);
    assert_eq!(absolute_difference(&a, &b), Err(SlippageError::Overflow));
    assert_eq!(absolute_difference(&b, &a), Err(SlippageError::Overflow));
}

#[test]
fn absolute_difference_reports_overflow_in_a_cross_product() {
    let a = Slippage::new(HALF_WIDTH, 1);
    let b = Slippage::new(1, 3);
    assert_eq!(absolute_difference(&a, &b), Err(SlippageError::Overflow));
}
