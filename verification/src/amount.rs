//! The quantities and prices of orders.
//!
//! An order's numbers are read and multiplied by the decimal arithmetic of
//! `rust_decimal`, with which the venues are called.  An [`Amount`] holds
//! such a number as two plain integers, so that the rules on orders can
//! speak of it.

use crate::decimal::{lemma_pow10_monotone, pow10};
use std::str::FromStr;
use vstd::prelude::*;

verus! {

/// A decimal number: `mantissa` divided by ten to the power `scale`.
#[derive(Debug, Clone, Copy, PartialEq, Eq, Structural)]
pub struct Amount {
    pub mantissa: i128,
    pub scale: u32,
}

/// The number that `rust_decimal::Decimal::from_str` reads from a text, as
/// its mantissa and its scale, or `None` where it reads none: a function of
/// the text alone.
pub uninterp spec fn amount_of(text: Seq<char>) -> Option<Amount>;

/// The product that `rust_decimal::Decimal::checked_mul` gives for two
/// numbers, as its mantissa and its scale; `None` where one of the two is
/// outside what a `rust_decimal::Decimal` holds and where the product is: a
/// function of the two numbers alone.
pub uninterp spec fn product_of(left: Amount, right: Amount) -> Option<Amount>;

/// `rust_decimal::Decimal::from_str`, with `mantissa` and `scale` of what it
/// read: the result is the number that the crate reads from the text, or
/// `None` where it gives an error.  Nothing more is claimed of it.
#[verifier::external_body]
pub(crate) fn read_amount(text: &str) -> (amount: Option<Amount>)
    ensures
        amount == amount_of(text@),
{
    match rust_decimal::Decimal::from_str(text) {
        Ok(number) => Some(Amount { mantissa: number.mantissa(), scale: number.scale() }),
        Err(_) => None,
    }
}

/// `rust_decimal::Decimal::checked_mul` on two numbers made by
/// `Decimal::try_from_i128_with_scale`, with `mantissa` and `scale` of the
/// product: the result is the product as the crate gives it, or `None`
/// where one of the three calls gives none.  Nothing more is claimed of it.
#[verifier::external_body]
pub(crate) fn multiply(left: Amount, right: Amount) -> (product: Option<Amount>)
    ensures
        product == product_of(left, right),
{
    let a = rust_decimal::Decimal::try_from_i128_with_scale(left.mantissa, left.scale).ok()?;
    let b = rust_decimal::Decimal::try_from_i128_with_scale(right.mantissa, right.scale).ok()?;
    let product = a.checked_mul(b)?;
    Some(Amount { mantissa: product.mantissa(), scale: product.scale() })
}

impl Amount {
    /// Whether the number lies below the whole number `limit`.
    pub open spec fn below(self, limit: nat) -> bool {
        self.mantissa < limit * pow10(self.scale as nat)
    }

    /// Whether the number lies below the whole number `limit`.
    pub fn is_below(&self, limit: u32) -> (below: bool)
        ensures
            below == self.below(limit as nat),
    {
        let ghost scale = self.scale as nat;
        proof {
            lemma_pow10_monotone(0, scale);
            assert(limit * pow10(scale) >= limit) by (nonlinear_arith)
                requires
                    pow10(scale) >= 1,
            ;
        }
        let mut bound: i128 = limit as i128;
        if self.mantissa < bound {
            return true;
        }
        let mut done: u32 = 0;
        while done < self.scale
            invariant
                done <= self.scale,
                scale == self.scale,
                bound == limit * pow10(done as nat),
                0 <= bound <= self.mantissa,
            decreases self.scale - done,
        {
            if bound > self.mantissa / 10 {
                proof {
                    let next = (done + 1) as nat;
                    lemma_pow10_monotone(next, scale);
                    assert(pow10(next) == 10 * pow10(done as nat));
                    assert(limit * pow10(next) == bound * 10) by (nonlinear_arith)
                        requires
                            pow10(next) == 10 * pow10(done as nat),
                            bound == limit * pow10(done as nat),
                    ;
                    assert(limit * pow10(scale) >= limit * pow10(next)) by (nonlinear_arith)
                        requires
                            pow10(scale) >= pow10(next),
                    ;
                }
                return true;
            }
            proof {
                let next = (done + 1) as nat;
                assert(pow10(next) == 10 * pow10(done as nat));
                assert(limit * pow10(next) == bound * 10) by (nonlinear_arith)
                    requires
                        pow10(next) == 10 * pow10(done as nat),
                        bound == limit * pow10(done as nat),
                ;
            }
            bound = bound * 10;
            done += 1;
        }
        self.mantissa < bound
    }
}

} // verus!
