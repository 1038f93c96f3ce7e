//! Checks of the slippage evaluator: the slippage of concrete trades, the
//! under-target predicate at the coarse scale, and the tolerance band at the
//! fine scale, including its exact boundary.

use liquidity_depth::evaluator::calc_slippage;
use liquidity_depth::evaluator::check_slippage_under_target;
use liquidity_depth::evaluator::check_slippage_vs_target_within_tolerance;
use liquidity_depth::evaluator::slippage_of;
use liquidity_depth::ratio::Slippage;
use liquidity_depth::ratio::SlippageError;

#[test]
fn calc_slippage_of_a_counterfactual_above_spot() {
    // 2754 realized against 2700 spot: slippage 54/2700 = 2%.
    assert_eq!(calc_slippage(2754, 2700), Ok(Slippage::new(54, 2700)));
}

#[test]
fn calc_slippage_underflow_is_an_overflow_error() {
    assert_eq!(calc_slippage(2000, 2700), Err(SlippageError::Overflow));
}

#[test]
fn calc_slippage_rejects_zero_spot() {
    assert_eq!(calc_slippage(5, 0), Err(SlippageError::DivisionByZero));
}

#[test]
fn slippage_of_a_trade_below_spot_rate() {
    // Spot 2700 out per 1 in; 2 in buys 5292 out instead of 5400:
    // the deviation is 108/5400 = 2%.
    let spot = Slippage::new(2700, 1);
    assert_eq!(slippage_of(&spot, 5292, 2), Ok(Slippage::new(108, 5400)));
}

#[test]
fn slippage_of_a_trade_above_spot_rate() {
    let spot = Slippage::new(2700, 1);
    assert_eq!(slippage_of(&spot, 5508, 2), Ok(Slippage::new(108, 5400)));
}

#[test]
fn slippage_of_rejects_zero_input_and_degenerate_spot() {
    let spot = Slippage::new(2700, 1);
    assert_eq!(slippage_of(&spot, 5292, 0), Err(SlippageError::DivisionByZero));
    let zero_num = Slippage::new(0, 1);
    assert_eq!(slippage_of(&zero_num, 5292, 2), Err(SlippageError::DivisionByZero));
    let zero_den = Slippage::new(2700, 0);
    assert_eq!(slippage_of(&zero_den, 5292, 2), Err(SlippageError::DivisionByZero));
}

#[test]
fn slippage_of_reports_overflow_on_huge_products() {
    let spot = Slippage::new(u128::MAX, 1);
    assert_eq!(slippage_of(&spot, 1, 2), Err(SlippageError::Overflow));
}

#[test]
fn under_target_accepts_at_exactly_the_target() {
    // 108/5400 is exactly 2%; the coarse numerator for 0.02 is 20_000.
    let slip = Slippage::new(108, 5400);
    assert_eq!(check_slippage_under_target(&slip, 20_000), Ok(true));
}

#[test]
fn under_target_rejects_just_above_the_target() {
    let slip = Slippage::new(109, 5400);
    assert_eq!(check_slippage_under_target(&slip, 20_000), Ok(false));
}

#[test]
fn under_target_propagates_overflow() {
    let slip = Slippage::new(u128::MAX / 2, 5400);
    assert_eq!(check_slippage_under_target(&slip, 20_000), Err(SlippageError::Overflow));
}

#[test]
fn within_tolerance_accepts_an_exact_match() {
    // 108/5400 against target 0.02 at the fine scale: zero difference.
    let slip = Slippage::new(108, 5400);
    assert_eq!(
        check_slippage_vs_target_within_tolerance(&slip, 20_000_000, 100_000),
        Ok(true)
    );
}

#[test]
fn within_tolerance_accepts_exactly_at_the_band_edge() {
    // 201/10000 deviates from 0.02 by exactly the 0.0001 tolerance.
    let slip = Slippage::new(201, 10_000);
    assert_eq!(
        check_slippage_vs_target_within_tolerance(&slip, 20_000_000, 100_000),
        Ok(true)
    );
}

#[test]
fn within_tolerance_rejects_just_past_the_band_edge() {
    let slip = Slippage::new(202, 10_000);
    assert_eq!(
        check_slippage_vs_target_within_tolerance(&slip, 20_000_000, 100_000),
        Ok(false)
    );
}

#[test]
fn within_tolerance_rejects_zero_denominator() {
    let slip = Slippage::new(108, 0);
    assert_eq!(
        check_slippage_vs_target_within_tolerance(&slip, 20_000_000, 100_000),
        Err(SlippageError::DivisionByZero)
    );
}

#[test]
fn within_tolerance_propagates_overflow() {
    let slip = Slippage::new(u128::MAX / 2, 5400);
    assert_eq!(
        check_slippage_vs_target_within_tolerance(&slip, 20_000_000, 100_000),
        Err(SlippageError::Overflow)
    );
}
