//! Whole numbers of 256 bits: as much as the statistics need to stay exact.

use vstd::prelude::*;

verus! {

/// Half of the bits of a `u128`.
const HALF: u128 = 0x1_0000_0000_0000_0000;

/// The weight of the upper half of a wide number.
pub open spec fn weight() -> nat {
    0x1_0000_0000_0000_0000_0000_0000_0000_0000nat
}

/// A number that is `high` times the weight of the upper half, and `low`.
#[derive(Debug, Clone, Copy, PartialEq, Eq, Structural)]
pub struct Wide {
    pub high: u128,
    pub low: u128,
}

impl View for Wide {
    type V = nat;

    open spec fn view(&self) -> nat {
        self.high as nat * weight() + self.low as nat
    }
}

impl Wide {
    /// A number that needs no more than half of the bits.
    pub fn new(low: u128) -> (wide: Wide)
        ensures
            wide@ == low,
    {
        Wide { high: 0, low }
    }

    /// The product of two numbers.
    pub fn product(a: u128, b: u64) -> (wide: Wide)
        ensures
            wide@ == a * b,
    {
        let (upper, lower): (u128, u128) = (a / HALF, a % HALF);
        assert(lower * b <= (HALF - 1) * (HALF - 1)) by (nonlinear_arith)
            requires
                0 <= lower <= HALF - 1,
                0 <= b <= HALF - 1,
        ;
        assert(upper * b <= (HALF - 1) * (HALF - 1)) by (nonlinear_arith)
            requires
                0 <= upper <= HALF - 1,
                0 <= b <= HALF - 1,
        ;
        let small: u128 = lower * b as u128;
        let large: u128 = upper * b as u128;
        let (carried, shifted): (u128, u128) = (large / HALF, large % HALF);
        let product = Wide { high: carried, low: shifted * HALF };
        proof {
            let (x, y, h) = (a as int, b as int, HALF as int);
            let (u, l, c, s) = (upper as int, lower as int, carried as int, shifted as int);
            assert(x * y == (u * y) * h + l * y) by (nonlinear_arith)
                requires
                    x == u * h + l,
            ;
            assert((u * y) * h == c * (h * h) + s * h) by (nonlinear_arith)
                requires
                    u * y == c * h + s,
            ;
            assert(h * h == weight());
            assert(x * y < weight() * h) by (nonlinear_arith)
                requires
                    0 <= x < weight(),
                    0 <= y < h,
            ;
            assert(h * weight() < weight() * weight());
        }
        product.plus(Wide::new(small))
    }

    /// The sum of two numbers.
    pub fn plus(self, other: Wide) -> (sum: Wide)
        requires
            self@ + other@ < weight() * weight(),
        ensures
            sum@ == self@ + other@,
    {
        let room: u128 = u128::MAX - other.low;
        if self.low <= room {
            Wide { high: self.high + other.high, low: self.low + other.low }
        } else {
            Wide { high: self.high + other.high + 1, low: self.low - room - 1 }
        }
    }

    /// The difference of two numbers.
    pub fn minus(self, other: Wide) -> (difference: Wide)
        requires
            self@ >= other@,
        ensures
            difference@ == self@ - other@,
    {
        if self.low >= other.low {
            Wide { high: self.high - other.high, low: self.low - other.low }
        } else {
            Wide { high: self.high - other.high - 1, low: u128::MAX - (other.low - self.low) + 1 }
        }
    }
}

/// A wide number is all that its halves hold, and no two of them are the same number.
pub proof fn wide_numbers_are_unique(first: Wide, second: Wide)
    requires
        first@ == second@,
    ensures
        first == second,
{
}

/// Every number that fits is a wide number.
pub proof fn numbers_that_fit_are_wide(number: nat) -> (wide: Wide)
    requires
        number < weight() * weight(),
    ensures
        wide@ == number,
{
    Wide { high: (number / weight()) as u128, low: (number % weight()) as u128 }
}

/// A wide number is its upper half times 2^128, and its lower half.
pub proof fn wide_numbers_have_two_halves(wide: Wide)
    ensures
        wide@ == wide.high * 0x1_0000_0000_0000_0000_0000_0000_0000_0000int + wide.low,
{
}

} // verus!
