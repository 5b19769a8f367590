//! Percentages with a resolution of one permille, and ratios of amounts.
use vstd::prelude::*;
use crate::fractionable::{
    checked_mul_amount, checked_mul_units, checked_ratio, mul_ratio, safe_mul_amount,
    safe_mul_units,
};

verus! {

/// The integer a percentage is counted in: permilles.
pub type Units = u32;

/// The number of permilles in one hundred percent.
pub const PERMILLE_TOTAL: u32 = 1000;

/// A ratio of two amounts. The ratio `0 / 0` is one.
#[derive(Clone, Copy, PartialEq, Eq, Structural, Debug)]
pub struct Rational {
    pub parts: u128,
    pub total: u128,
}

impl Rational {
    /// The ratio `parts / total`.
    pub fn new(parts: u128, total: u128) -> (res: Self)
        ensures
            res.parts == parts,
            res.total == total,
    {
        Rational { parts, total }
    }

    /// The numerator.
    pub fn parts(&self) -> (res: u128)
        ensures
            res == self.parts,
    {
        self.parts
    }

    /// The denominator.
    pub fn total(&self) -> (res: u128)
        ensures
            res == self.total,
    {
        self.total
    }
}

/// A percentage, held in permilles.
#[derive(Clone, Copy, PartialEq, Eq, Structural, Debug, Default)]
pub struct Percent {
    pub units: u32,
}

impl Percent {
    /// The percentage of `percent` hundredths.
    pub fn from_percent(percent: u16) -> (res: Self)
        ensures
            res.units == percent * 10,
    {
        Percent { units: (percent as u32) * 10 }
    }

    /// The percentage of `permille` thousandths.
    pub fn from_permille(permille: u32) -> (res: Self)
        ensures
            res.units == permille,
    {
        Percent { units: permille }
    }

    /// The percentage in permilles.
    pub fn units(&self) -> (res: u32)
        ensures
            res == self.units,
    {
        self.units
    }

    /// Whether the percentage is zero.
    pub fn is_zero(&self) -> (res: bool)
        ensures
            res == (self.units == 0),
    {
        self.units == 0
    }

    /// The sum of two percentages, or nothing if it does not fit.
    pub fn checked_add(self, other: Percent) -> (res: Option<Percent>)
        ensures
            self.units + other.units <= u32::MAX ==> res == Some(
                (Percent { units: (self.units + other.units) as u32 }),
            ),
            self.units + other.units > u32::MAX ==> res.is_none(),
    {
        match self.units.checked_add(other.units) {
            Some(units) => Some(Percent { units }),
            None => None,
        }
    }

    /// `self` scaled by the percentage `ratio`, rounded down to a permille.
    pub fn safe_mul(self, ratio: &Percent) -> (res: Percent)
        requires
            checked_ratio(
                self.units as int,
                ratio.units as int,
                PERMILLE_TOTAL as int,
                u32::MAX as int,
            ).is_some(),
        ensures
            res.units == mul_ratio(self.units as int, ratio.units as int, PERMILLE_TOTAL as int),
    {
        Percent { units: safe_mul_units(self.units, ratio.units, PERMILLE_TOTAL) }
    }

    /// `self` scaled by the percentage `ratio`, or nothing if the result
    /// does not fit.
    pub fn checked_mul(self, ratio: &Percent) -> (res: Option<Percent>)
        ensures
            match checked_ratio(
                self.units as int,
                ratio.units as int,
                PERMILLE_TOTAL as int,
                u32::MAX as int,
            ) {
                Some(r) => res == Some((Percent { units: r as u32 })),
                None => res.is_none(),
            },
    {
        match checked_mul_units(self.units, ratio.units, PERMILLE_TOTAL) {
            Some(units) => Some(Percent { units }),
            None => None,
        }
    }

    /// Whether `self` scaled by `fraction` is defined and fits.
    pub open spec fn fraction_fits(self, fraction: Rational) -> bool {
        checked_ratio(
            self.units as int,
            fraction.parts as int,
            fraction.total as int,
            u32::MAX as int,
        ).is_some()
    }

    /// `self` scaled by a ratio of amounts, or nothing if the ratio is
    /// undefined or the result does not fit.
    pub fn checked_mul_fraction(self, fraction: &Rational) -> (res: Option<Percent>)
        ensures
            self.fraction_fits(*fraction) ==> res == Some(
                (Percent {
                    units: mul_ratio(
                        self.units as int,
                        fraction.parts as int,
                        fraction.total as int,
                    ) as u32,
                }),
            ),
            !self.fraction_fits(*fraction) ==> res.is_none(),
    {
        match checked_mul_amount(self.units as u128, fraction.parts, fraction.total) {
            Some(scaled) => {
                if scaled > u32::MAX as u128 {
                    None
                } else {
                    Some(Percent { units: scaled as u32 })
                }
            },
            None => {
                proof {
                    if fraction.parts != fraction.total && fraction.total != 0 {
                        assert(self.units * fraction.parts / (fraction.total as int) > u32::MAX);
                    }
                }
                None
            },
        }
    }

    /// `self` scaled by a ratio of amounts, rounded down to a permille.
    pub fn safe_mul_fraction(self, fraction: &Rational) -> (res: Percent)
        requires
            self.fraction_fits(*fraction),
        ensures
            res.units == mul_ratio(
                self.units as int,
                fraction.parts as int,
                fraction.total as int,
            ),
    {
        match self.checked_mul_fraction(fraction) {
            Some(r) => r,
            None => self,
        }
    }

    /// This percentage of `amount`, rounded down, or nothing if it does not
    /// fit 128 bits.
    pub fn checked_of(&self, amount: u128) -> (res: Option<u128>)
        ensures
            match self.spec_of(amount) {
                Some(r) => res == Some(r as u128),
                None => res.is_none(),
            },
    {
        checked_mul_amount(amount, self.units as u128, PERMILLE_TOTAL as u128)
    }

    /// This percentage of `amount`, rounded down.
    pub fn of(&self, amount: u128) -> (res: u128)
        requires
            self.spec_of(amount).is_some(),
        ensures
            Some(res as int) == self.spec_of(amount),
    {
        safe_mul_amount(amount, self.units as u128, PERMILLE_TOTAL as u128)
    }

    /// This percentage of `amount`, rounded down, where it fits 128 bits.
    pub open spec fn spec_of(&self, amount: u128) -> Option<int> {
        checked_ratio(amount as int, self.units as int, PERMILLE_TOTAL as int, u128::MAX as int)
    }
}

} // verus!
