//! Checks of the verified oracles: the diminishing-return curve and the
//! finite quote table.

use liquidity_depth::oracle::CurveOracle;
use liquidity_depth::oracle::TableOracle;
use liquidity_depth::search::QuoteOracle;

#[test]
fn curve_quotes_follow_the_diminishing_return_formula() {
    let oracle = CurveOracle { rate: 2700, cap: 1_000_000_000 };
    // floor(2700 * x * (1 - x / 1e9)) at a few points.
    assert_eq!(oracle.quote(0), Some(0));
    assert_eq!(oracle.quote(1), Some(2699));
    assert_eq!(oracle.quote(500_000_000), Some(675_000_000_000));
    assert_eq!(oracle.quote(1_000_000_000), Some(0));
}

#[test]
fn curve_does_not_quote_beyond_its_capacity() {
    let oracle = CurveOracle { rate: 2700, cap: 1_000_000_000 };
    assert_eq!(oracle.quote(1_000_000_001), None);
    let degenerate = CurveOracle { rate: 2700, cap: 0 };
    assert_eq!(degenerate.quote(1), None);
}

#[test]
fn curve_does_not_quote_where_the_product_leaves_the_width() {
    let oracle = CurveOracle { rate: u128::MAX, cap: u128::MAX };
    assert_eq!(oracle.quote(2), None);
}

#[test]
fn table_quotes_its_entries_and_nothing_else() {
    let oracle = TableOracle { entries: vec![(4, 10_500), (2, 5_292)] };
    assert_eq!(oracle.quote(4), Some(10_500));
    assert_eq!(oracle.quote(2), Some(5_292));
    assert_eq!(oracle.quote(3), None);
    let empty = TableOracle { entries: vec![] };
    assert_eq!(empty.quote(2), None);
}

#[test]
fn table_answers_with_the_first_entry_for_a_duplicated_input() {
    let oracle = TableOracle { entries: vec![(2, 10), (2, 20)] };
    assert_eq!(oracle.quote(2), Some(10));
}
