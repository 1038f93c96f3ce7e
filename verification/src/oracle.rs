//! Verified oracle implementations.
//!
//! Both oracles answer exactly according to a stated mathematical model, so
//! a search driven by either is verified end to end: a diminishing-returns
//! curve for a synthetic exchange, and a finite quote table for handcrafted
//! scenarios.

use vstd::prelude::*;

use crate::search::QuoteOracle;

verus! {

/// What a [`CurveOracle`] quotes for the input `x`:
/// `rate * x * (cap - x) / cap`, the integer form of the diminishing-return
/// curve `rate * x * (1 - x / cap)`; no quote beyond the capacity or where
/// a product would leave the representable range.
pub open spec fn spec_curve_quote(rate: u128, cap: u128, x: u128) -> Option<u128> {
    if cap == 0 || x > cap {
        None
    } else if rate * x > u128::MAX || rate * x * (cap - x) > u128::MAX {
        None
    } else {
        Some(((rate * x * (cap - x)) / (cap as int)) as u128)
    }
}

/// A synthetic exchange with diminishing returns: an input `x` up to the
/// capacity `cap` buys `floor(rate * x * (1 - x / cap))` output units, so
/// the marginal rate starts at `rate` and falls linearly to zero at `cap`.
#[derive(Clone, Copy, Debug, PartialEq, Eq, Structural)]
pub struct CurveOracle {
    /// The marginal exchange rate at an infinitesimally small trade.
    pub rate: u128,
    /// The input amount at which the curve's output returns to zero.
    pub cap: u128,
}

impl QuoteOracle for CurveOracle {
    open spec fn quote_model(&self) -> spec_fn(u128) -> Option<u128> {
        |x: u128| spec_curve_quote(self.rate, self.cap, x)
    }

    fn quote(&self, amount_in: u128) -> (r: Option<u128>)
        ensures
            r == (self.quote_model())(amount_in),
    {
        if self.cap == 0 || amount_in > self.cap {
            return None;
        }
        let linear: u128 = match self.rate.checked_mul(amount_in) {
            Some(v) => v,
            None => {
                return None;
            },
        };
        let scaled: u128 = match linear.checked_mul(self.cap - amount_in) {
            Some(v) => v,
            None => {
                return None;
            },
        };
        Some(scaled / self.cap)
    }
}

/// What a [`TableOracle`] quotes for the input `x`: the output paired with
/// the first entry for `x`, or nothing when no entry lists `x`.
pub open spec fn spec_table_lookup(entries: Seq<(u128, u128)>, x: u128) -> Option<u128>
    decreases entries.len(),
{
    if entries.len() == 0 {
        None
    } else if entries[0].0 == x {
        Some(entries[0].1)
    } else {
        spec_table_lookup(entries.drop_first(), x)
    }
}

/// A finite quote table: each entry pairs an input amount with the output
/// the oracle reports for it, and any input without an entry fails. Useful
/// to pin an oracle to handcrafted quotes.
#[derive(Debug, PartialEq, Eq)]
pub struct TableOracle {
    /// The `(input, output)` pairs the oracle answers for.
    pub entries: Vec<(u128, u128)>,
}

impl QuoteOracle for TableOracle {
    open spec fn quote_model(&self) -> spec_fn(u128) -> Option<u128> {
        |x: u128| spec_table_lookup(self.entries@, x)
    }

    fn quote(&self, amount_in: u128) -> (r: Option<u128>)
        ensures
            r == (self.quote_model())(amount_in),
    {
        let mut i: usize = 0;
        proof {
            assert(self.entries@.skip(0) =~= self.entries@);
        }
        while i < self.entries.len()
            invariant
                i <= self.entries.len(),
                spec_table_lookup(self.entries@, amount_in) == spec_table_lookup(
                    self.entries@.skip(i as int),
                    amount_in,
                ),
            decreases self.entries.len() - i,
        {
            let entry: (u128, u128) = self.entries[i];
            proof {
                assert(self.entries@.skip(i as int).drop_first() =~= self.entries@.skip(
                    i as int + 1,
                ));
            }
            if entry.0 == amount_in {
                return Some(entry.1);
            }
            i = i + 1;
        }
        proof {
            assert(self.entries@.skip(i as int) =~= Seq::<(u128, u128)>::empty());
        }
        None
    }
}

} // verus!
