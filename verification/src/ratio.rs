//! An exact non-negative ratio, compared by checked cross-multiplication.
//!
//! A `Slippage` is a pair `(num, den)` of unsigned integers standing for the
//! rational number `num / den`. Ratios are never reduced to lowest terms and
//! never divided: every comparison works on the cross products `a.num * b.den`
//! and `b.num * a.den`, and every multiplication that could exceed the integer
//! width is checked, so an out-of-range product is always reported as
//! `SlippageError::Overflow` and never wraps.

use vstd::prelude::*;

verus! {

/// A non-negative rational number `num / den`, used for prices, slippage
/// values and tolerances. A zero denominator is tolerated at construction
/// but every consumer reports it as `SlippageError::DivisionByZero`.
#[derive(Clone, Copy, Debug, PartialEq, Eq, Structural)]
pub struct Slippage {
    pub num: u128,
    pub den: u128,
}

impl Slippage {
    /// Builds the ratio `num / den` without any normalization.
    pub fn new(num: u128, den: u128) -> (r: Slippage)
        ensures
            r == (Slippage { num, den }),
    {
        Slippage { num, den }
    }

    /// A ratio is usable as a value only while its denominator is non-zero.
    pub open spec fn valid(self) -> bool {
        self.den > 0
    }
}

/// Errors of the exact ratio arithmetic.
#[derive(Clone, Copy, Debug, PartialEq, Eq, Structural)]
pub enum SlippageError {
    /// A product or difference left the representable range.
    Overflow,
    /// A ratio with a zero denominator was consumed or would be produced.
    DivisionByZero,
}

/// The value ordering `a <= b`, by cross-multiplication over the unbounded
/// integers: `a.num / a.den <= b.num / b.den` exactly when
/// `a.num * b.den <= b.num * a.den` (for positive denominators).
pub open spec fn ratio_le_val(a: Slippage, b: Slippage) -> bool {
    a.num * b.den <= b.num * a.den
}

/// Value equality of two ratios: the represented rationals are equal, even
/// when the pairs differ (`1/2` equals `2/4`).
pub open spec fn ratio_eq_val(a: Slippage, b: Slippage) -> bool {
    a.num * b.den == b.num * a.den
}

/// What `less_or_equal` returns: the cross products are formed with checked
/// multiplication, so the answer is `Ok(a <= b)` exactly when both fit the
/// integer width, and `Err(Overflow)` otherwise.
pub open spec fn spec_less_or_equal(a: Slippage, b: Slippage) -> Result<bool, SlippageError> {
    if a.den == 0 || b.den == 0 {
        Err(SlippageError::DivisionByZero)
    } else if a.num * b.den > u128::MAX || b.num * a.den > u128::MAX {
        Err(SlippageError::Overflow)
    } else {
        Ok(ratio_le_val(a, b))
    }
}

/// Decides `a <= b` over the represented rationals, never dividing and never
/// letting a product wrap.
pub fn less_or_equal(a: &Slippage, b: &Slippage) -> (r: Result<bool, SlippageError>)
    ensures
        r == spec_less_or_equal(*a, *b),
{
    if a.den == 0 || b.den == 0 {
        return Err(SlippageError::DivisionByZero);
    }
    let lhs: u128 = match a.num.checked_mul(b.den) {
        Some(v) => v,
        None => {
            return Err(SlippageError::Overflow);
        },
    };
    let rhs: u128 = match b.num.checked_mul(a.den) {
        Some(v) => v,
        None => {
            return Err(SlippageError::Overflow);
        },
    };
    Ok(lhs <= rhs)
}

/// The numerator of `|a - b|` over the common denominator `a.den * b.den`:
/// the smaller cross product subtracted from the larger, so the value never
/// underflows.
pub open spec fn diff_numerator(a: Slippage, b: Slippage) -> int {
    if a.num * b.den >= b.num * a.den {
        a.num * b.den - b.num * a.den
    } else {
        b.num * a.den - a.num * b.den
    }
}

/// What `absolute_difference` returns: `|a - b|` as the ratio
/// `(|a.num * b.den - b.num * a.den|) / (a.den * b.den)`, or `Err(Overflow)`
/// as soon as a cross product or the common denominator leaves the
/// representable range.
pub open spec fn spec_absolute_difference(a: Slippage, b: Slippage) -> Result<
    Slippage,
    SlippageError,
> {
    if a.den == 0 || b.den == 0 {
        Err(SlippageError::DivisionByZero)
    } else if a.num * b.den > u128::MAX || b.num * a.den > u128::MAX || a.den * b.den
        > u128::MAX {
        Err(SlippageError::Overflow)
    } else {
        Ok(Slippage { num: diff_numerator(a, b) as u128, den: (a.den * b.den) as u128 })
    }
}

/// Computes `|a - b|` in the common denominator `a.den * b.den`, with every
/// product checked.
pub fn absolute_difference(a: &Slippage, b: &Slippage) -> (r: Result<Slippage, SlippageError>)
    ensures
        r == spec_absolute_difference(*a, *b),
{
    if a.den == 0 || b.den == 0 {
        return Err(SlippageError::DivisionByZero);
    }
    let lhs: u128 = match a.num.checked_mul(b.den) {
        Some(v) => v,
        None => {
            return Err(SlippageError::Overflow);
        },
    };
    let rhs: u128 = match b.num.checked_mul(a.den) {
        Some(v) => v,
        None => {
            return Err(SlippageError::Overflow);
        },
    };
    let den: u128 = match a.den.checked_mul(b.den) {
        Some(v) => v,
        None => {
            return Err(SlippageError::Overflow);
        },
    };
    let num: u128 = if lhs >= rhs {
        lhs - rhs
    } else {
        rhs - lhs
    };
    Ok(Slippage { num, den })
}

/// Total-order consistency of the ratio comparison: for valid ratios,
/// `a <= b` holds exactly when `b <= a` fails or the two represent the same
/// rational value.
pub proof fn lemma_less_or_equal_total_order(a: Slippage, b: Slippage)
    requires
        a.valid(),
        b.valid(),
    ensures
        ratio_le_val(a, b) == (!ratio_le_val(b, a) || ratio_eq_val(a, b)),
{
}

/// Symmetry of the absolute difference: `|a - b|` and `|b - a|` are the same
/// ratio, and the two computations fail on exactly the same inputs.
pub proof fn lemma_absolute_difference_symmetric(a: Slippage, b: Slippage)
    ensures
        spec_absolute_difference(a, b) == spec_absolute_difference(b, a),
{
}

} // verus!
