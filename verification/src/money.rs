//! Integer-cents money value type: amounts are whole minor currency units,
//! never floating point.

use vstd::prelude::*;
use crate::text::{digit_char, spec_u64_str, u64_to_string};

verus! {

/// The display form of an amount: the currency sign, a minus sign for
/// negative amounts, the whole major units, and exactly two fractional
/// digits.
pub open spec fn spec_money_display(cents: int) -> Seq<char> {
    let m = if cents < 0 {
        -cents
    } else {
        cents
    };
    "¥"@ + (if cents < 0 {
        "-"@
    } else {
        Seq::<char>::empty()
    }) + spec_u64_str((m / 100) as nat) + seq!['.'] + seq![
        digit_char(((m % 100) / 10) as nat),
        digit_char((m % 10) as nat),
    ]
}

/// A currency amount held as a whole number of minor units (cents).
#[derive(Debug, Clone, Copy, PartialEq, Eq, Structural)]
pub struct Money {
    /// Amount in minor units (cents).
    pub amount_cents: i64,
}

impl Money {
    /// Builds an amount from major units (yuan); one major unit is 100 cents.
    pub fn from_yuan(amount: i64) -> (r: Money)
        requires
            i64::MIN <= amount * 100 <= i64::MAX,
        ensures
            r.amount_cents == amount * 100,
    {
        Money { amount_cents: amount * 100 }
    }

    /// Builds an amount directly from minor units (cents).
    pub fn from_cents(cents: i64) -> (r: Money)
        ensures
            r.amount_cents == cents,
    {
        Money { amount_cents: cents }
    }

    /// Returns the amount in minor units (cents).
    pub fn to_cents(&self) -> (r: i64)
        ensures
            r == self.amount_cents,
    {
        self.amount_cents
    }

    /// The display form of the amount: currency sign, sign, major units and
    /// two fractional digits.
    pub fn display_yuan(&self) -> (r: String)
        ensures
            r@ == spec_money_display(self.amount_cents as int),
    {
        let cents = self.amount_cents;
        let mut s = String::from_str("¥");
        proof {
            reveal_strlit("¥");
        }
        let magnitude: u64 = if cents >= 0 {
            cents as u64
        } else {
            s.append("-");
            proof {
                reveal_strlit("-");
            }
            (-(cents + 1)) as u64 + 1
        };
        assert(magnitude == if cents < 0 { -(cents as int) } else { cents as int });
        let major = u64_to_string(magnitude / 100);
        s.append(major.as_str());
        s.append(".");
        proof {
            reveal_strlit(".");
        }
        crate::text::append_digit(&mut s, (magnitude % 100) / 10);
        crate::text::append_digit(&mut s, magnitude % 10);
        proof {
            assert(s@ =~= spec_money_display(self.amount_cents as int));
        }
        s
    }
}

/// An amount built from major units carries exactly 100 cents per major unit,
/// and the construction is invertible: dividing the cents by 100 recovers the
/// original major-unit count.
pub proof fn lemma_money_major_round_trip(amount: i64)
    requires
        i64::MIN <= amount * 100 <= i64::MAX,
    ensures
        (amount * 100) / 100 == amount,
{
    assert((amount * 100) / 100 == amount) by (nonlinear_arith);
}

} // verus!
