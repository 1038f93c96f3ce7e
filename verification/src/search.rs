//! The two-phase searcher: exponential bracketing followed by bisection.
//!
//! The searcher drives an oracle capability — anything implementing
//! [`QuoteOracle`] — to the input amount whose realized slippage against a
//! spot price meets a target within a tolerance. Phase one doubles a trial
//! amount until the slippage is no longer under the target, which brackets
//! the crossing point between a known-under `low` and a known-at-or-over
//! `high`; phase two bisects that interval until the tolerance test accepts
//! a trial or the interval collapses.
//!
//! The whole search is modelled by the recursive functions [`spec_bracket`]
//! and [`spec_bisect`] over the oracle's quote model; the executable driver
//! returns exactly the modelled result, so the outcome is a function of the
//! oracle's input-output behaviour and the parameters alone.

use vstd::prelude::*;

use crate::evaluator::TOLERANCE_SCALE;
use crate::evaluator::UNDER_TARGET_SCALE;
use crate::evaluator::check_slippage_under_target;
use crate::evaluator::check_slippage_vs_target_within_tolerance;
use crate::evaluator::slippage_of;
use crate::evaluator::spec_check_under_target;
use crate::evaluator::spec_check_within_tolerance;
use crate::evaluator::spec_slippage_of;
use crate::ratio::Slippage;
use crate::ratio::SlippageError;

verus! {

/// Errors of one search invocation.
#[derive(Clone, Copy, Debug, PartialEq, Eq, Structural)]
pub enum SearchError {
    /// An arithmetic product left the representable range.
    Overflow,
    /// The spot price was degenerate, a trial amount of zero was evaluated,
    /// the target or tolerance lay outside `[0, 1)`, or the initial probe
    /// was zero.
    InvalidInput,
    /// The oracle returned no quote for a trial amount.
    OracleFailure,
    /// The bisection interval collapsed before the tolerance test accepted
    /// a trial amount.
    ToleranceUnattainable,
}

/// The immutable configuration of one search: the target slippage and the
/// tolerance around it, both as exact decimal fractions.
#[derive(Clone, Copy, Debug, PartialEq, Eq, Structural)]
pub struct SlippageTarget {
    /// The slippage the search aims for, e.g. `2/100` for two percent.
    pub target: Slippage,
    /// The acceptable deviation between realized and target slippage,
    /// e.g. `1/10_000`.
    pub tolerance: Slippage,
}

/// How a ratio-arithmetic error surfaces from a search: an overflow stays an
/// overflow, and a degenerate ratio is an invalid input.
pub open spec fn spec_search_error_of(e: SlippageError) -> SearchError {
    match e {
        SlippageError::Overflow => SearchError::Overflow,
        SlippageError::DivisionByZero => SearchError::InvalidInput,
    }
}

/// Maps a ratio-arithmetic error to the search error that reports it.
pub fn search_error_of(e: SlippageError) -> (r: SearchError)
    ensures
        r == spec_search_error_of(e),
{
    match e {
        SlippageError::Overflow => SearchError::Overflow,
        SlippageError::DivisionByZero => SearchError::InvalidInput,
    }
}

/// What `round_to_scale` returns: the numerator of the decimal `num / den`
/// at the given scale, rounded half away from zero —
/// `(2 * num * scale + den) / (2 * den)` — with every intermediate product
/// checked.
pub open spec fn spec_round_to_scale(num: u128, den: u128, scale: u128) -> Result<
    u128,
    SlippageError,
> {
    if den == 0 {
        Err(SlippageError::DivisionByZero)
    } else if num * scale > u128::MAX || num * scale * 2 > u128::MAX || num * scale * 2 + den
        > u128::MAX || den * 2 > u128::MAX {
        Err(SlippageError::Overflow)
    } else {
        Ok((((num * scale * 2 + den) / (den * 2)) as u128))
    }
}

/// Converts a decimal fraction `num / den` to the integer numerator
/// `round(num / den * scale)`, rounding halves up. This is the one lossy
/// step of the pipeline: the result is only as precise as `1 / scale`.
pub fn round_to_scale(num: u128, den: u128, scale: u128) -> (r: Result<u128, SlippageError>)
    ensures
        r == spec_round_to_scale(num, den, scale),
{
    if den == 0 {
        return Err(SlippageError::DivisionByZero);
    }
    let scaled: u128 = match num.checked_mul(scale) {
        Some(v) => v,
        None => {
            return Err(SlippageError::Overflow);
        },
    };
    let doubled: u128 = match scaled.checked_mul(2) {
        Some(v) => v,
        None => {
            return Err(SlippageError::Overflow);
        },
    };
    let numerator: u128 = match doubled.checked_add(den) {
        Some(v) => v,
        None => {
            return Err(SlippageError::Overflow);
        },
    };
    let divisor: u128 = match den.checked_mul(2) {
        Some(v) => v,
        None => {
            return Err(SlippageError::Overflow);
        },
    };
    Ok(numerator / divisor)
}

/// An oracle capability: given an input amount for a fixed trading pair, it
/// reports the corresponding output amount, or nothing when it cannot quote.
/// `quote_model` is the oracle's input-output behaviour as a mathematical
/// function; `quote` must answer exactly according to it, which is what
/// makes a search outcome a function of the oracle's behaviour alone.
pub trait QuoteOracle: Sized {
    /// The quoting behaviour: for each input amount, the output amount the
    /// oracle reports, or `None` where it fails.
    spec fn quote_model(&self) -> spec_fn(u128) -> Option<u128>;

    /// Quotes one input amount, answering exactly as the model says.
    fn quote(&self, amount_in: u128) -> (r: Option<u128>)
        ensures
            r == (self.quote_model())(amount_in),
    ;
}

/// The bisection phase over the oracle model `m`: while the interval
/// `(low, high)` is wider than one unit, quote its midpoint, accept it when
/// the tolerance test passes or the slippage equals the target exactly, and
/// otherwise keep the half whose boundary the slippage points at. A
/// collapsed interval means the tolerance cannot be attained.
pub open spec fn spec_bisect(
    m: spec_fn(u128) -> Option<u128>,
    spot: Slippage,
    target_fine: u128,
    tolerance_fine: u128,
    low: u128,
    high: u128,
) -> Result<u128, SearchError>
    decreases high - low,
{
    if high <= low || high - low <= 1 {
        Err(SearchError::ToleranceUnattainable)
    } else {
        let trial = (low + (high - low) / 2) as u128;
        match m(trial) {
            None => Err(SearchError::OracleFailure),
            Some(out) => match spec_slippage_of(spot, out, trial) {
                Err(e) => Err(spec_search_error_of(e)),
                Ok(slip) => match spec_check_within_tolerance(slip, target_fine, tolerance_fine) {
                    Err(e) => Err(spec_search_error_of(e)),
                    Ok(true) => Ok(trial),
                    Ok(false) => if slip.num * TOLERANCE_SCALE < target_fine * slip.den {
                        spec_bisect(m, spot, target_fine, tolerance_fine, trial, high)
                    } else if slip.num * TOLERANCE_SCALE > target_fine * slip.den {
                        spec_bisect(m, spot, target_fine, tolerance_fine, low, trial)
                    } else {
                        Ok(trial)
                    },
                },
            },
        }
    }
}

/// The bracketing phase over the oracle model `m`: quote the trial amount;
/// while the realized slippage stays under the target, remember the trial as
/// `low` and double it; the first trial at or over the target becomes `high`
/// and bisection takes over. A doubling that would leave the integer width
/// is an overflow, so the phase always ends.
pub open spec fn spec_bracket(
    m: spec_fn(u128) -> Option<u128>,
    spot: Slippage,
    target_coarse: u128,
    target_fine: u128,
    tolerance_fine: u128,
    low: u128,
    trial: u128,
) -> Result<u128, SearchError>
    decreases u128::MAX - trial,
{
    match m(trial) {
        None => Err(SearchError::OracleFailure),
        Some(out) => match spec_slippage_of(spot, out, trial) {
            Err(e) => Err(spec_search_error_of(e)),
            Ok(slip) => match spec_check_under_target(slip, target_coarse) {
                Err(e) => Err(spec_search_error_of(e)),
                Ok(true) => if trial * 2 > u128::MAX {
                    Err(SearchError::Overflow)
                } else {
                    spec_bracket(
                        m,
                        spot,
                        target_coarse,
                        target_fine,
                        tolerance_fine,
                        trial,
                        (trial * 2) as u128,
                    )
                },
                Ok(false) => spec_bisect(m, spot, target_fine, tolerance_fine, low, trial),
            },
        },
    }
}

/// Whether the trial amount `x` quotes cleanly and its realized slippage
/// tests under the target at the coarse scale.
pub open spec fn spec_under_trial(
    m: spec_fn(u128) -> Option<u128>,
    spot: Slippage,
    target_coarse: u128,
    x: u128,
) -> bool {
    match m(x) {
        None => false,
        Some(out) => match spec_slippage_of(spot, out, x) {
            Err(_) => false,
            Ok(slip) => spec_check_under_target(slip, target_coarse) == Ok::<
                bool,
                SlippageError,
            >(true),
        },
    }
}

/// Whether the trial amount `x` quotes cleanly and its realized slippage
/// tests at or over the target at the coarse scale.
pub open spec fn spec_over_trial(
    m: spec_fn(u128) -> Option<u128>,
    spot: Slippage,
    target_coarse: u128,
    x: u128,
) -> bool {
    match m(x) {
        None => false,
        Some(out) => match spec_slippage_of(spot, out, x) {
            Err(_) => false,
            Ok(slip) => spec_check_under_target(slip, target_coarse) == Ok::<
                bool,
                SlippageError,
            >(false),
        },
    }
}

/// The interval the bracketing phase hands to bisection, when it reaches
/// bisection at all: `None` when an oracle failure, an evaluation error or
/// an overflowing doubling ends the search during bracketing.
pub open spec fn spec_bracket_interval(
    m: spec_fn(u128) -> Option<u128>,
    spot: Slippage,
    target_coarse: u128,
    low: u128,
    trial: u128,
) -> Option<(u128, u128)>
    decreases u128::MAX - trial,
{
    match m(trial) {
        None => None,
        Some(out) => match spec_slippage_of(spot, out, trial) {
            Err(_) => None,
            Ok(slip) => match spec_check_under_target(slip, target_coarse) {
                Err(_) => None,
                Ok(true) => if trial * 2 > u128::MAX {
                    None
                } else {
                    spec_bracket_interval(m, spot, target_coarse, trial, (trial * 2) as u128)
                },
                Ok(false) => Some((low, trial)),
            },
        },
    }
}

/// When bracketing reaches bisection, the whole bracket-then-bisect run is
/// exactly the bisection of the handed-over interval.
pub proof fn lemma_bracket_reaches_bisection(
    m: spec_fn(u128) -> Option<u128>,
    spot: Slippage,
    target_coarse: u128,
    target_fine: u128,
    tolerance_fine: u128,
    low: u128,
    trial: u128,
)
    ensures
        spec_bracket_interval(m, spot, target_coarse, low, trial) matches Some(interval)
            ==> spec_bracket(m, spot, target_coarse, target_fine, tolerance_fine, low, trial)
            == spec_bisect(m, spot, target_fine, tolerance_fine, interval.0, interval.1),
    decreases u128::MAX - trial,
{
    match m(trial) {
        None => {},
        Some(out) => match spec_slippage_of(spot, out, trial) {
            Err(_) => {},
            Ok(slip) => match spec_check_under_target(slip, target_coarse) {
                Err(_) => {},
                Ok(true) => {
                    if trial * 2 <= u128::MAX {
                        lemma_bracket_reaches_bisection(
                            m,
                            spot,
                            target_coarse,
                            target_fine,
                            tolerance_fine,
                            trial,
                            (trial * 2) as u128,
                        );
                    }
                },
                Ok(false) => {},
            },
        },
    }
}

/// Bracketing establishes a genuine bracket: whatever interval it hands to
/// bisection has a lower endpoint that is the phase's starting `low` or a
/// trial that tested under the target, and an upper endpoint that tested at
/// or over the target.
pub proof fn lemma_bracket_establishes_bracket(
    m: spec_fn(u128) -> Option<u128>,
    spot: Slippage,
    target_coarse: u128,
    low: u128,
    trial: u128,
)
    ensures
        spec_bracket_interval(m, spot, target_coarse, low, trial) matches Some(interval) ==> {
            &&& interval.0 == low || spec_under_trial(m, spot, target_coarse, interval.0)
            &&& spec_over_trial(m, spot, target_coarse, interval.1)
        },
    decreases u128::MAX - trial,
{
    match m(trial) {
        None => {},
        Some(out) => match spec_slippage_of(spot, out, trial) {
            Err(_) => {},
            Ok(slip) => match spec_check_under_target(slip, target_coarse) {
                Err(_) => {},
                Ok(true) => {
                    if trial * 2 <= u128::MAX {
                        lemma_bracket_establishes_bracket(
                            m,
                            spot,
                            target_coarse,
                            trial,
                            (trial * 2) as u128,
                        );
                    }
                },
                Ok(false) => {},
            },
        },
    }
}

/// Whether the search parameters are admissible: a positive spot price, a
/// target and a tolerance inside `[0, 1)`, and a positive initial probe.
pub open spec fn spec_valid_search_inputs(
    spot: Slippage,
    target: SlippageTarget,
    initial_probe: u128,
) -> bool {
    &&& spot.num > 0
    &&& spot.den > 0
    &&& target.target.den > 0
    &&& target.tolerance.den > 0
    &&& target.target.num < target.target.den
    &&& target.tolerance.num < target.tolerance.den
    &&& initial_probe > 0
}

/// The complete search over the oracle model `m`: reject inadmissible
/// parameters, convert the target to both scales and the tolerance to the
/// fine scale, then bracket from the initial probe and bisect.
pub open spec fn spec_search(
    m: spec_fn(u128) -> Option<u128>,
    spot: Slippage,
    target: SlippageTarget,
    initial_probe: u128,
) -> Result<u128, SearchError> {
    if !spec_valid_search_inputs(spot, target, initial_probe) {
        Err(SearchError::InvalidInput)
    } else {
        match spec_round_to_scale(target.target.num, target.target.den, UNDER_TARGET_SCALE) {
            Err(e) => Err(spec_search_error_of(e)),
            Ok(target_coarse) => match spec_round_to_scale(
                target.target.num,
                target.target.den,
                TOLERANCE_SCALE,
            ) {
                Err(e) => Err(spec_search_error_of(e)),
                Ok(target_fine) => match spec_round_to_scale(
                    target.tolerance.num,
                    target.tolerance.den,
                    TOLERANCE_SCALE,
                ) {
                    Err(e) => Err(spec_search_error_of(e)),
                    Ok(tolerance_fine) => spec_bracket(
                        m,
                        spot,
                        target_coarse,
                        target_fine,
                        tolerance_fine,
                        0,
                        initial_probe,
                    ),
                },
            },
        }
    }
}

/// Runs the bisection phase: quotes midpoints of `(low, high)` until the
/// tolerance test accepts one, the slippage hits the target exactly, an
/// error surfaces, or the interval collapses to a unit. Returns exactly
/// what [`spec_bisect`] says for the oracle's model.
pub fn bisect_search<O: QuoteOracle>(
    oracle: &O,
    spot: &Slippage,
    target_fine: u128,
    tolerance_fine: u128,
    low: u128,
    high: u128,
) -> (r: Result<u128, SearchError>)
    ensures
        r == spec_bisect(oracle.quote_model(), *spot, target_fine, tolerance_fine, low, high),
    decreases high - low,
{
    if high <= low || high - low <= 1 {
        return Err(SearchError::ToleranceUnattainable);
    }
    let trial: u128 = low + (high - low) / 2;
    let out: u128 = match oracle.quote(trial) {
        Some(v) => v,
        None => {
            return Err(SearchError::OracleFailure);
        },
    };
    let slip: Slippage = match slippage_of(spot, out, trial) {
        Ok(s) => s,
        Err(e) => {
            return Err(search_error_of(e));
        },
    };
    let within: bool = match check_slippage_vs_target_within_tolerance(
        &slip,
        target_fine,
        tolerance_fine,
    ) {
        Ok(b) => b,
        Err(e) => {
            return Err(search_error_of(e));
        },
    };
    if within {
        return Ok(trial);
    }
    let realized_side: u128 = slip.num * TOLERANCE_SCALE;
    let target_side: u128 = target_fine * slip.den;
    if realized_side < target_side {
        bisect_search(oracle, spot, target_fine, tolerance_fine, trial, high)
    } else if realized_side > target_side {
        bisect_search(oracle, spot, target_fine, tolerance_fine, low, trial)
    } else {
        Ok(trial)
    }
}

/// Runs the bracketing phase: doubles the trial amount while its realized
/// slippage stays under the target, then hands the bracketed interval to
/// bisection. Returns exactly what [`spec_bracket`] says for the oracle's
/// model.
pub fn bracket_search<O: QuoteOracle>(
    oracle: &O,
    spot: &Slippage,
    target_coarse: u128,
    target_fine: u128,
    tolerance_fine: u128,
    low: u128,
    trial: u128,
) -> (r: Result<u128, SearchError>)
    ensures
        r == spec_bracket(
            oracle.quote_model(),
            *spot,
            target_coarse,
            target_fine,
            tolerance_fine,
            low,
            trial,
        ),
    decreases u128::MAX - trial,
{
    let out: u128 = match oracle.quote(trial) {
        Some(v) => v,
        None => {
            return Err(SearchError::OracleFailure);
        },
    };
    let slip: Slippage = match slippage_of(spot, out, trial) {
        Ok(s) => s,
        Err(e) => {
            return Err(search_error_of(e));
        },
    };
    let under: bool = match check_slippage_under_target(&slip, target_coarse) {
        Ok(b) => b,
        Err(e) => {
            return Err(search_error_of(e));
        },
    };
    if under {
        let doubled: u128 = match trial.checked_mul(2) {
            Some(v) => v,
            None => {
                return Err(SearchError::Overflow);
            },
        };
        bracket_search(oracle, spot, target_coarse, target_fine, tolerance_fine, trial, doubled)
    } else {
        bisect_search(oracle, spot, target_fine, tolerance_fine, low, trial)
    }
}

/// Finds the input amount whose realized slippage against `spot` meets the
/// target within the tolerance, by exponential bracketing from
/// `initial_probe` followed by bisection. The result — the found amount or
/// the exact error — is precisely [`spec_search`] applied to the oracle's
/// quote model, so it is a function of the oracle's behaviour, the spot
/// price, the target configuration and the probe alone.
pub fn find_input_for_slippage<O: QuoteOracle>(
    spot: &Slippage,
    target: &SlippageTarget,
    initial_probe: u128,
    oracle: &O,
) -> (r: Result<u128, SearchError>)
    ensures
        r == spec_search(oracle.quote_model(), *spot, *target, initial_probe),
{
    if !(spot.num > 0 && spot.den > 0 && target.target.den > 0 && target.tolerance.den > 0
        && target.target.num < target.target.den && target.tolerance.num < target.tolerance.den
        && initial_probe > 0) {
        return Err(SearchError::InvalidInput);
    }
    let target_coarse: u128 = match round_to_scale(
        target.target.num,
        target.target.den,
        UNDER_TARGET_SCALE,
    ) {
        Ok(v) => v,
        Err(e) => {
            return Err(search_error_of(e));
        },
    };
    let target_fine: u128 = match round_to_scale(
        target.target.num,
        target.target.den,
        TOLERANCE_SCALE,
    ) {
        Ok(v) => v,
        Err(e) => {
            return Err(search_error_of(e));
        },
    };
    let tolerance_fine: u128 = match round_to_scale(
        target.tolerance.num,
        target.tolerance.den,
        TOLERANCE_SCALE,
    ) {
        Ok(v) => v,
        Err(e) => {
            return Err(search_error_of(e));
        },
    };
    bracket_search(oracle, spot, target_coarse, target_fine, tolerance_fine, 0, initial_probe)
}

/// Whether the trial amount `x` is one the search accepts: the oracle
/// quotes an output for it, the slippage evaluates without error, and the
/// tolerance test passes — or the realized slippage equals the target
/// exactly at the fine scale, the degenerate tie that also ends a search.
pub open spec fn spec_accepted_trial(
    m: spec_fn(u128) -> Option<u128>,
    spot: Slippage,
    target_fine: u128,
    tolerance_fine: u128,
    x: u128,
) -> bool {
    match m(x) {
        None => false,
        Some(out) => match spec_slippage_of(spot, out, x) {
            Err(_) => false,
            Ok(slip) => spec_check_within_tolerance(slip, target_fine, tolerance_fine)
                == Ok::<bool, SlippageError>(true) || slip.num * TOLERANCE_SCALE == target_fine
                * slip.den,
        },
    }
}

/// Success is earned: a bisection that answers `Ok(x)` accepted `x`, in the
/// sense of [`spec_accepted_trial`].
pub proof fn lemma_bisect_ok_accepted(
    m: spec_fn(u128) -> Option<u128>,
    spot: Slippage,
    target_fine: u128,
    tolerance_fine: u128,
    low: u128,
    high: u128,
)
    ensures
        spec_bisect(m, spot, target_fine, tolerance_fine, low, high) matches Ok(x)
            ==> spec_accepted_trial(m, spot, target_fine, tolerance_fine, x),
    decreases high - low,
{
    if high <= low || high - low <= 1 {
    } else {
        let trial = (low + (high - low) / 2) as u128;
        lemma_bisect_interval_halves(low, high);
        lemma_bisect_ok_accepted(m, spot, target_fine, tolerance_fine, trial, high);
        lemma_bisect_ok_accepted(m, spot, target_fine, tolerance_fine, low, trial);
    }
}

/// Success is earned in the bracketing phase too: a bracket-then-bisect run
/// that answers `Ok(x)` accepted `x`.
pub proof fn lemma_bracket_ok_accepted(
    m: spec_fn(u128) -> Option<u128>,
    spot: Slippage,
    target_coarse: u128,
    target_fine: u128,
    tolerance_fine: u128,
    low: u128,
    trial: u128,
)
    ensures
        spec_bracket(m, spot, target_coarse, target_fine, tolerance_fine, low, trial) matches Ok(x)
            ==> spec_accepted_trial(m, spot, target_fine, tolerance_fine, x),
    decreases u128::MAX - trial,
{
    match m(trial) {
        None => {},
        Some(out) => match spec_slippage_of(spot, out, trial) {
            Err(_) => {},
            Ok(slip) => match spec_check_under_target(slip, target_coarse) {
                Err(_) => {},
                Ok(true) => {
                    if trial * 2 <= u128::MAX {
                        lemma_bracket_ok_accepted(
                            m,
                            spot,
                            target_coarse,
                            target_fine,
                            tolerance_fine,
                            trial,
                            (trial * 2) as u128,
                        );
                    }
                },
                Ok(false) => {
                    lemma_bisect_ok_accepted(m, spot, target_fine, tolerance_fine, low, trial);
                },
            },
        },
    }
}

/// Success is earned by the whole search: whenever `spec_search` — and so,
/// by its contract, `find_input_for_slippage` — answers `Ok(x)`, the target
/// and tolerance converted cleanly to the fine scale and the oracle's quote
/// at `x` passed the tolerance test (or tied the target exactly) for those
/// converted values.
pub proof fn lemma_search_ok_accepted(
    m: spec_fn(u128) -> Option<u128>,
    spot: Slippage,
    target: SlippageTarget,
    initial_probe: u128,
)
    ensures
        spec_search(m, spot, target, initial_probe) matches Ok(x) ==> match (
            spec_round_to_scale(target.target.num, target.target.den, TOLERANCE_SCALE),
            spec_round_to_scale(target.tolerance.num, target.tolerance.den, TOLERANCE_SCALE),
        ) {
            (Ok(target_fine), Ok(tolerance_fine)) => spec_accepted_trial(
                m,
                spot,
                target_fine,
                tolerance_fine,
                x,
            ),
            _ => false,
        },
{
    if spec_valid_search_inputs(spot, target, initial_probe) {
        match spec_round_to_scale(target.target.num, target.target.den, UNDER_TARGET_SCALE) {
            Err(_) => {},
            Ok(target_coarse) => match spec_round_to_scale(
                target.target.num,
                target.target.den,
                TOLERANCE_SCALE,
            ) {
                Err(_) => {},
                Ok(target_fine) => match spec_round_to_scale(
                    target.tolerance.num,
                    target.tolerance.den,
                    TOLERANCE_SCALE,
                ) {
                    Err(_) => {},
                    Ok(tolerance_fine) => {
                        lemma_bracket_ok_accepted(
                            m,
                            spot,
                            target_coarse,
                            target_fine,
                            tolerance_fine,
                            0,
                            initial_probe,
                        );
                    },
                },
            },
        }
    }
}

/// Each bisection step at least halves the open interval: the midpoint
/// splits `(low, high)` into two parts of at most `(high - low + 1) / 2`
/// units each, so bisection ends within a logarithmic number of steps in
/// the bracketed width — and it always ends, as the `decreases` measure of
/// [`spec_bisect`] states.
pub proof fn lemma_bisect_interval_halves(low: u128, high: u128)
    requires
        high - low >= 2,
    ensures
        ({
            let trial = low + (high - low) / 2;
            &&& low < trial < high
            &&& trial - low <= (high - low + 1) / 2
            &&& high - trial <= (high - low + 1) / 2
        }),
{
}

/// How many times the bisection phase of [`spec_bisect`] queries the
/// oracle: once per visited interval, plus whatever the kept half needs.
pub open spec fn spec_bisect_steps(
    m: spec_fn(u128) -> Option<u128>,
    spot: Slippage,
    target_fine: u128,
    tolerance_fine: u128,
    low: u128,
    high: u128,
) -> nat
    decreases high - low,
{
    if high <= low || high - low <= 1 {
        0
    } else {
        let trial = (low + (high - low) / 2) as u128;
        match m(trial) {
            None => 1,
            Some(out) => match spec_slippage_of(spot, out, trial) {
                Err(_) => 1,
                Ok(slip) => match spec_check_within_tolerance(slip, target_fine, tolerance_fine) {
                    Err(_) => 1,
                    Ok(true) => 1,
                    Ok(false) => if slip.num * TOLERANCE_SCALE < target_fine * slip.den {
                        1 + spec_bisect_steps(m, spot, target_fine, tolerance_fine, trial, high)
                    } else if slip.num * TOLERANCE_SCALE > target_fine * slip.den {
                        1 + spec_bisect_steps(m, spot, target_fine, tolerance_fine, low, trial)
                    } else {
                        1
                    },
                },
            },
        }
    }
}

/// How many times an interval of the given width can be halved — rounding
/// the kept half up, as the bisection does — before it is a single unit:
/// the ceiling of the base-two logarithm of the width.
pub open spec fn halving_count(width: int) -> nat
    decreases width,
{
    if width <= 1 {
        0
    } else {
        1 + halving_count((width + 1) / 2)
    }
}

/// A narrower interval never takes more halvings than a wider one.
pub proof fn lemma_halving_count_monotone(narrow: int, wide: int)
    requires
        narrow <= wide,
    ensures
        halving_count(narrow) <= halving_count(wide),
    decreases wide,
{
    if wide <= 1 || narrow <= 1 {
    } else {
        lemma_halving_count_monotone((narrow + 1) / 2, (wide + 1) / 2);
    }
}

/// Convergence of the bisection phase: on an interval of width `w` it
/// queries the oracle at most `halving_count(w)` times, a logarithmic
/// bound, because every step keeps at most half of the interval, rounded
/// up.
pub proof fn lemma_bisect_step_count(
    m: spec_fn(u128) -> Option<u128>,
    spot: Slippage,
    target_fine: u128,
    tolerance_fine: u128,
    low: u128,
    high: u128,
)
    ensures
        spec_bisect_steps(m, spot, target_fine, tolerance_fine, low, high) <= halving_count(
            high - low,
        ),
    decreases high - low,
{
    if high <= low || high - low <= 1 {
    } else {
        let trial = (low + (high - low) / 2) as u128;
        lemma_bisect_interval_halves(low, high);
        lemma_bisect_step_count(m, spot, target_fine, tolerance_fine, trial, high);
        lemma_bisect_step_count(m, spot, target_fine, tolerance_fine, low, trial);
        lemma_halving_count_monotone(high - trial, (high - low + 1) / 2);
        lemma_halving_count_monotone(trial - low, (high - low + 1) / 2);
    }
}

/// On a bracketed interval of width one billion input units the bisection
/// phase queries the oracle at most thirty times before it accepts a trial
/// or reports the tolerance unattainable.
pub proof fn lemma_bisect_step_count_gigaunit(
    m: spec_fn(u128) -> Option<u128>,
    spot: Slippage,
    target_fine: u128,
    tolerance_fine: u128,
)
    ensures
        spec_bisect_steps(m, spot, target_fine, tolerance_fine, 0, 1_000_000_000) <= 30,
{
    lemma_bisect_step_count(m, spot, target_fine, tolerance_fine, 0, 1_000_000_000);
    reveal_with_fuel(halving_count, 32);
    assert(halving_count(1_000_000_000) == 30);
}

/// Determinism of the search: two oracles with the same quoting behaviour,
/// given the same spot price, target configuration and initial probe, yield
/// the same search result. With the driver's contract this says that
/// repeating a search over identical oracle state returns the identical
/// result.
pub proof fn lemma_search_deterministic(
    m1: spec_fn(u128) -> Option<u128>,
    m2: spec_fn(u128) -> Option<u128>,
    spot: Slippage,
    target: SlippageTarget,
    initial_probe: u128,
)
    requires
        forall|x: u128| #[trigger] m1(x) == m2(x),
    ensures
        spec_search(m1, spot, target, initial_probe) == spec_search(m2, spot, target, initial_probe),
{
    assert(m1 =~= m2);
}

} // verus!
