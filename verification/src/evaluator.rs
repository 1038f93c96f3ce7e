//! The slippage evaluator: from a spot price and a trial `(input, output)`
//! pair to an exact slippage ratio, and the two predicates the searcher
//! branches on.
//!
//! Target and tolerance decimals reach the predicates as integer numerators
//! over a fixed scale. The under-target test works at the coarse
//! `UNDER_TARGET_SCALE`; the tolerance test works at the finer
//! `TOLERANCE_SCALE`. The two scales are deliberately distinct: unifying them
//! would move the observable behaviour at tolerance boundaries.

use vstd::prelude::*;

use crate::ratio::Slippage;
use crate::ratio::SlippageError;
use crate::ratio::less_or_equal;
use crate::ratio::ratio_le_val;
use crate::ratio::spec_less_or_equal;

verus! {

/// Denominator of the coarse scale used by the under-target predicate: a
/// target decimal `t` arrives as the numerator `round(t * 1_000_000)`.
pub const UNDER_TARGET_SCALE: u128 = 1_000_000;

/// Denominator of the fine scale used by the tolerance predicate: target and
/// tolerance decimals arrive as numerators over `1_000_000_000`.
pub const TOLERANCE_SCALE: u128 = 1_000_000_000;

/// What `calc_slippage` returns: the ratio
/// `(counterfactual - spot) / spot`, `Err(Overflow)` when the subtraction
/// would underflow, and `Err(DivisionByZero)` for a zero spot amount.
pub open spec fn spec_calc_slippage(counterfactual: u128, spot: u128) -> Result<
    Slippage,
    SlippageError,
> {
    if spot == 0 {
        Err(SlippageError::DivisionByZero)
    } else if counterfactual < spot {
        Err(SlippageError::Overflow)
    } else {
        Ok(Slippage { num: (counterfactual - spot) as u128, den: spot })
    }
}

/// The slippage between a counterfactual amount and a spot amount, as the
/// exact ratio `(counterfactual - spot) / spot`. The subtraction is checked:
/// a counterfactual below spot is reported as `Overflow`, never wrapped.
pub fn calc_slippage(counterfactual: u128, spot: u128) -> (r: Result<Slippage, SlippageError>)
    ensures
        r == spec_calc_slippage(counterfactual, spot),
{
    if spot == 0 {
        return Err(SlippageError::DivisionByZero);
    }
    let num: u128 = match counterfactual.checked_sub(spot) {
        Some(v) => v,
        None => {
            return Err(SlippageError::Overflow);
        },
    };
    Ok(Slippage { num, den: spot })
}

/// What `slippage_of` returns: with `lhs = amount_out * spot.den` and
/// `rhs = spot.num * amount_in`, the slippage magnitude
/// `|lhs - rhs| / (spot.num * amount_in)`; `Err(DivisionByZero)` for a
/// degenerate spot price or a zero input, `Err(Overflow)` when either
/// product leaves the representable range.
pub open spec fn spec_slippage_of(spot: Slippage, amount_out: u128, amount_in: u128) -> Result<
    Slippage,
    SlippageError,
> {
    if spot.num == 0 || spot.den == 0 || amount_in == 0 {
        Err(SlippageError::DivisionByZero)
    } else if amount_out * spot.den > u128::MAX || spot.num * amount_in > u128::MAX {
        Err(SlippageError::Overflow)
    } else {
        Ok(
            Slippage {
                num: (if amount_out * spot.den >= spot.num * amount_in {
                    amount_out * spot.den - spot.num * amount_in
                } else {
                    spot.num * amount_in - amount_out * spot.den
                }) as u128,
                den: (spot.num * amount_in) as u128,
            },
        )
    }
}

/// The realized slippage of a trial trade: how far the realized rate
/// `amount_out / amount_in` deviates from the spot price `spot.num / spot.den`,
/// as the exact magnitude `|amount_out * spot.den - spot.num * amount_in|`
/// over the common denominator `spot.num * amount_in`. Every product is
/// checked and the subtraction takes the smaller side from the larger.
pub fn slippage_of(spot: &Slippage, amount_out: u128, amount_in: u128) -> (r: Result<
    Slippage,
    SlippageError,
>)
    ensures
        r == spec_slippage_of(*spot, amount_out, amount_in),
{
    if spot.num == 0 || spot.den == 0 || amount_in == 0 {
        return Err(SlippageError::DivisionByZero);
    }
    let lhs: u128 = match amount_out.checked_mul(spot.den) {
        Some(v) => v,
        None => {
            return Err(SlippageError::Overflow);
        },
    };
    let rhs: u128 = match spot.num.checked_mul(amount_in) {
        Some(v) => v,
        None => {
            return Err(SlippageError::Overflow);
        },
    };
    let num: u128 = if lhs >= rhs {
        lhs - rhs
    } else {
        rhs - lhs
    };
    Ok(Slippage { num, den: rhs })
}

/// What `check_slippage_under_target` returns: the checked comparison of the
/// slippage against the ratio `target_num / UNDER_TARGET_SCALE`.
pub open spec fn spec_check_under_target(slippage: Slippage, target_num: u128) -> Result<
    bool,
    SlippageError,
> {
    spec_less_or_equal(slippage, Slippage { num: target_num, den: UNDER_TARGET_SCALE })
}

/// Whether a slippage is at or below a target, where the target decimal `t`
/// arrives as `target_num = round(t * UNDER_TARGET_SCALE)`. The comparison is
/// the checked cross-multiplication of the ratio type; an out-of-range cross
/// product is reported as `Overflow`.
pub fn check_slippage_under_target(slippage: &Slippage, target_num: u128) -> (r: Result<
    bool,
    SlippageError,
>)
    ensures
        r == spec_check_under_target(*slippage, target_num),
{
    let target = Slippage { num: target_num, den: UNDER_TARGET_SCALE };
    less_or_equal(slippage, &target)
}

/// What `check_slippage_vs_target_within_tolerance` returns. With
/// `lhs = slippage.num * TOLERANCE_SCALE`, `rhs = target_num * slippage.den`
/// and `diff = |lhs - rhs|`, the answer is
/// `TOLERANCE_SCALE * diff <= (tolerance_num * slippage.den) * TOLERANCE_SCALE`,
/// which says `|slippage - target| <= tolerance` over the common denominator
/// `slippage.den * TOLERANCE_SCALE`; each product is checked in this order
/// and the first one out of range yields `Err(Overflow)`.
pub open spec fn spec_check_within_tolerance(
    slippage: Slippage,
    target_num: u128,
    tolerance_num: u128,
) -> Result<bool, SlippageError> {
    if slippage.den == 0 {
        Err(SlippageError::DivisionByZero)
    } else if slippage.num * TOLERANCE_SCALE > u128::MAX || target_num * slippage.den
        > u128::MAX {
        Err(SlippageError::Overflow)
    } else {
        let diff = if slippage.num * TOLERANCE_SCALE >= target_num * slippage.den {
            slippage.num * TOLERANCE_SCALE - target_num * slippage.den
        } else {
            target_num * slippage.den - slippage.num * TOLERANCE_SCALE
        };
        if TOLERANCE_SCALE * diff > u128::MAX || tolerance_num * slippage.den > u128::MAX || (
        tolerance_num * slippage.den) * TOLERANCE_SCALE > u128::MAX {
            Err(SlippageError::Overflow)
        } else {
            Ok(TOLERANCE_SCALE * diff <= (tolerance_num * slippage.den) * TOLERANCE_SCALE)
        }
    }
}

/// Whether a slippage lies within a tolerance band of a target. Target and
/// tolerance decimals `t` arrive as `round(t * TOLERANCE_SCALE)` over the
/// fine scale. The test forms `diff = |slippage - target|` over the common
/// denominator and accepts exactly when `diff <= tolerance`, all by checked
/// cross-multiplication.
pub fn check_slippage_vs_target_within_tolerance(
    slippage: &Slippage,
    target_num: u128,
    tolerance_num: u128,
) -> (r: Result<bool, SlippageError>)
    ensures
        r == spec_check_within_tolerance(*slippage, target_num, tolerance_num),
{
    if slippage.den == 0 {
        return Err(SlippageError::DivisionByZero);
    }
    let lhs: u128 = match slippage.num.checked_mul(TOLERANCE_SCALE) {
        Some(v) => v,
        None => {
            return Err(SlippageError::Overflow);
        },
    };
    let rhs: u128 = match target_num.checked_mul(slippage.den) {
        Some(v) => v,
        None => {
            return Err(SlippageError::Overflow);
        },
    };
    let diff: u128 = if lhs >= rhs {
        lhs - rhs
    } else {
        rhs - lhs
    };
    let scaled_diff: u128 = match TOLERANCE_SCALE.checked_mul(diff) {
        Some(v) => v,
        None => {
            return Err(SlippageError::Overflow);
        },
    };
    let tol_side: u128 = match tolerance_num.checked_mul(slippage.den) {
        Some(v) => v,
        None => {
            return Err(SlippageError::Overflow);
        },
    };
    let bound: u128 = match tol_side.checked_mul(TOLERANCE_SCALE) {
        Some(v) => v,
        None => {
            return Err(SlippageError::Overflow);
        },
    };
    Ok(scaled_diff <= bound)
}

/// The under-target predicate agrees with the value ordering of the ratio
/// type: whenever it answers at all, it answers `slippage <= target` over
/// the represented rationals.
pub proof fn lemma_under_target_is_ratio_order(slippage: Slippage, target_num: u128)
    ensures
        spec_check_under_target(slippage, target_num) matches Ok(b) ==> b == ratio_le_val(
            slippage,
            Slippage { num: target_num, den: UNDER_TARGET_SCALE },
        ),
{
}

} // verus!
