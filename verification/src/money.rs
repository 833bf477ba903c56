//! Exact money, held in cents to avoid float rounding.

use vstd::prelude::*;

use crate::text::{ascii_bytes_to_string, dec_bytes_spec, lemma_dec_bytes_digits, push_dec_bytes};

verus! {

/// An amount of money in hundredths of the currency unit.
#[derive(Clone, Copy, Debug, Hash, PartialEq, Eq, Structural)]
pub struct MonetaryAmount {
    pub amount_x100: u64,
}

impl MonetaryAmount {
    /// Wraps an amount already expressed in cents.
    pub fn new(amount_x100: u64) -> (r: MonetaryAmount)
        ensures
            r.amount_x100 == amount_x100,
    {
        MonetaryAmount { amount_x100 }
    }

    /// The amount in cents.
    pub fn get(&self) -> (r: u64)
        ensures
            r == self.amount_x100,
    {
        self.amount_x100
    }

    /// The whole-unit part of the amount.
    pub fn dollars(&self) -> (r: u64)
        ensures
            r == self.amount_x100 / 100,
    {
        self.amount_x100 / 100
    }

    /// The fractional part of the amount, in cents.
    pub fn cents(&self) -> (r: u64)
        ensures
            r == self.amount_x100 % 100,
            r < 100,
    {
        self.amount_x100 % 100
    }

    /// Adds two amounts, saturating at the largest representable balance.
    pub fn saturating_add(&self, other: &MonetaryAmount) -> (r: MonetaryAmount)
        ensures
            self.amount_x100 + other.amount_x100 <= u64::MAX ==> r.amount_x100
                == self.amount_x100 + other.amount_x100,
            self.amount_x100 + other.amount_x100 > u64::MAX ==> r.amount_x100 == u64::MAX,
    {
        if self.amount_x100 <= u64::MAX - other.amount_x100 {
            MonetaryAmount { amount_x100: self.amount_x100 + other.amount_x100 }
        } else {
            MonetaryAmount { amount_x100: u64::MAX }
        }
    }

    /// Subtracts an amount that is known to be covered.
    pub fn minus(&self, other: &MonetaryAmount) -> (r: MonetaryAmount)
        requires
            other.amount_x100 <= self.amount_x100,
        ensures
            r.amount_x100 == self.amount_x100 - other.amount_x100,
    {
        MonetaryAmount { amount_x100: self.amount_x100 - other.amount_x100 }
    }

    /// Whether this amount covers a price.
    pub fn covers(&self, price: &MonetaryAmount) -> (r: bool)
        ensures
            r == (self.amount_x100 >= price.amount_x100),
    {
        self.amount_x100 >= price.amount_x100
    }
}


/// The rendering of an amount: a currency sign, the whole units in
/// decimal, a point, and exactly two cent digits.
pub open spec fn money_bytes_spec(cents: int) -> Seq<u8> {
    seq![36u8] + dec_bytes_spec(cents / 100) + seq![
        46u8,
        (48 + (cents % 100) / 10) as u8,
        (48 + cents % 10) as u8,
    ]
}

impl MonetaryAmount {
    /// Renders the amount as text, e.g. `$10.50`.
    pub fn display_string(&self) -> (r: String)
        ensures
            r@ == money_bytes_spec(self.amount_x100 as int).map_values(|b: u8| b as char),
    {
        let mut bytes: Vec<u8> = Vec::new();
        bytes.push(36);
        push_dec_bytes(self.amount_x100 / 100, &mut bytes);
        bytes.push(46);
        let c = self.amount_x100 % 100;
        bytes.push(48 + ((c / 10) as u8));
        bytes.push(48 + ((c % 10) as u8));
        proof {
            assert(c % 10 == self.amount_x100 as int % 10) by {
                vstd::arithmetic::div_mod::lemma_mod_mod(self.amount_x100 as int, 10, 10);
            };
            assert(bytes@ =~= money_bytes_spec(self.amount_x100 as int));
            lemma_dec_bytes_digits(self.amount_x100 as int / 100);
            assert forall|i: int| 0 <= i < bytes@.len() implies bytes@[i] < 128 by {
                let dl = dec_bytes_spec(self.amount_x100 as int / 100).len();
                if 1 <= i < 1 + dl {
                    assert(bytes@[i] == dec_bytes_spec(self.amount_x100 as int / 100)[i - 1]);
                }
            }
        }
        ascii_bytes_to_string(bytes)
    }
}

} // verus!
