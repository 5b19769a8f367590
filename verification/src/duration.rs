//! A span of time with nanosecond resolution.
use vstd::prelude::*;
use crate::fractionable::{checked_mul_amount, checked_ratio, mul_ratio};
use crate::timestamp::Timestamp;

verus! {

/// The integer a duration is counted in: nanoseconds.
pub type Units = u64;

/// Nanoseconds in one second.
pub const UNITS_IN_SECOND: u64 = 1_000_000_000;

/// Nanoseconds in one hour.
pub const UNITS_IN_HOUR: u64 = 3_600_000_000_000;

/// Nanoseconds in a year of 365 days.
pub const YEAR_NANOS: u64 = 31_536_000_000_000_000;

/// A span between two timestamps, counted in nanoseconds.
#[derive(Clone, Copy, PartialEq, Eq, Structural, Debug, Default)]
pub struct Duration {
    pub nanos: u64,
}

impl Duration {
    /// A year of 365 days.
    pub fn year() -> (res: Self)
        ensures
            res.nanos == YEAR_NANOS,
    {
        Duration { nanos: YEAR_NANOS }
    }

    /// The span of `nanos` nanoseconds.
    pub fn from_nanos(nanos: Units) -> (res: Self)
        ensures
            res.nanos == nanos,
    {
        Duration { nanos }
    }

    /// The span of `secs` seconds.
    pub fn from_secs(secs: u32) -> (res: Self)
        ensures
            res.nanos == secs * UNITS_IN_SECOND,
    {
        Duration { nanos: (secs as u64) * UNITS_IN_SECOND }
    }

    /// The span of `hours` hours.
    pub fn from_hours(hours: u16) -> (res: Self)
        ensures
            res.nanos == hours * UNITS_IN_HOUR,
    {
        Duration { nanos: (hours as u64) * UNITS_IN_HOUR }
    }

    /// The span from `start` to `end`.
    pub fn between(start: Timestamp, end: Timestamp) -> (res: Self)
        requires
            start.nanos <= end.nanos,
        ensures
            res.nanos == end.nanos - start.nanos,
    {
        Duration { nanos: end.nanos - start.nanos }
    }

    /// The span in nanoseconds.
    pub fn nanos(&self) -> (res: Units)
        ensures
            res == self.nanos,
    {
        self.nanos
    }

    /// The span in whole seconds; the sub-second part is dropped.
    pub fn secs(&self) -> (res: u64)
        ensures
            res == self.nanos / UNITS_IN_SECOND,
    {
        self.nanos / UNITS_IN_SECOND
    }

    /// Whether the span is empty.
    pub fn is_zero(&self) -> (res: bool)
        ensures
            res == (self.nanos == 0),
    {
        self.nanos == 0
    }

    /// The span as a 128-bit count of nanoseconds.
    pub fn into_u128(self) -> (res: u128)
        ensures
            res == self.nanos,
    {
        self.nanos as u128
    }

    /// The span of `value` nanoseconds, or nothing if `value` does not fit
    /// 64 bits.
    pub fn try_from_u128(value: u128) -> (res: Option<Self>)
        ensures
            value <= u64::MAX ==> res == Some((Duration { nanos: value as u64 })),
            value > u64::MAX ==> res.is_none(),
    {
        if value > u64::MAX as u128 {
            None
        } else {
            Some(Duration { nanos: value as u64 })
        }
    }

    /// The part of an amount due per year that falls to this span, rounded
    /// down, where it fits 128 bits.
    pub open spec fn spec_annualized_slice_of(&self, annual_amount: u128) -> Option<int> {
        checked_ratio(
            annual_amount as int,
            self.nanos as int,
            YEAR_NANOS as int,
            u128::MAX as int,
        )
    }

    /// The part of an amount due per year that falls to this span, or
    /// nothing if it does not fit 128 bits.
    pub fn checked_annualized_slice_of(&self, annual_amount: u128) -> (res: Option<u128>)
        ensures
            match self.spec_annualized_slice_of(annual_amount) {
                Some(r) => res == Some(r as u128),
                None => res.is_none(),
            },
    {
        checked_mul_amount(annual_amount, self.nanos as u128, YEAR_NANOS as u128)
    }

    /// The part of an amount due per year that falls to this span, rounded
    /// down.
    pub fn annualized_slice_of(&self, annual_amount: u128) -> (res: u128)
        requires
            self.spec_annualized_slice_of(annual_amount).is_some(),
        ensures
            res == mul_ratio(annual_amount as int, self.nanos as int, YEAR_NANOS as int),
    {
        match self.checked_annualized_slice_of(annual_amount) {
            Some(r) => r,
            None => annual_amount,
        }
    }

    /// The span scaled by `amount / annual_amount`, where that is defined
    /// and fits 64 bits.
    pub open spec fn spec_slice_per_ratio(self, amount: u128, annual_amount: u128) -> Option<int> {
        checked_ratio(self.nanos as int, amount as int, annual_amount as int, u64::MAX as int)
    }

    /// The span scaled by `amount / annual_amount`, or nothing if the ratio
    /// is undefined or the result does not fit 64 bits.
    pub fn checked_slice_per_ratio(self, amount: u128, annual_amount: u128) -> (res: Option<Self>)
        ensures
            match self.spec_slice_per_ratio(amount, annual_amount) {
                Some(r) => res == Some((Duration { nanos: r as u64 })),
                None => res.is_none(),
            },
    {
        match checked_mul_amount(self.nanos as u128, amount, annual_amount) {
            Some(scaled) => {
                if scaled > u64::MAX as u128 {
                    None
                } else {
                    Some(Duration { nanos: scaled as u64 })
                }
            },
            None => {
                proof {
                    if amount != annual_amount && annual_amount != 0 {
                        assert(self.nanos * amount / (annual_amount as int) > u64::MAX);
                    }
                }
                None
            },
        }
    }

    /// The span scaled by `amount / annual_amount`, rounded down.
    pub fn into_slice_per_ratio(self, amount: u128, annual_amount: u128) -> (res: Self)
        requires
            self.spec_slice_per_ratio(amount, annual_amount).is_some(),
        ensures
            res.nanos == mul_ratio(self.nanos as int, amount as int, annual_amount as int),
    {
        match self.checked_slice_per_ratio(amount, annual_amount) {
            Some(r) => r,
            None => self,
        }
    }
}

} // verus!
