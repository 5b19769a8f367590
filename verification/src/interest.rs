//! A window of time over which interest accrues at a fixed annual rate.
use vstd::prelude::*;
use crate::duration::{Duration, YEAR_NANOS};
use crate::fractionable::{checked_ratio, lemma_ratio_bounds, mul_ratio};
use crate::percent::Percent;
use crate::timestamp::Timestamp;

verus! {

/// An accrual window: it starts at `start`, spans `length` and bears
/// `interest` per year. A payment moves the start forward; the end stays.
#[derive(Clone, Copy, PartialEq, Eq, Structural, Debug)]
pub struct InterestPeriod {
    pub start: Timestamp,
    pub length: Duration,
    pub interest: Percent,
}

impl InterestPeriod {
    /// The end of the window is a representable point in time.
    pub open spec fn wf(self) -> bool {
        self.start.nanos + self.length.nanos <= u64::MAX
    }

    /// The end of the window.
    pub open spec fn spec_till(self) -> Timestamp {
        Timestamp { nanos: (self.start.nanos + self.length.nanos) as u64 }
    }

    /// The span from the start of the window to `by`, cut at the window's end.
    pub open spec fn spec_elapsed(self, by: Timestamp) -> int {
        by.spec_clamp(self.start, self.spec_till()).nanos - self.start.nanos
    }

    /// The interest a principal bears from the start of the window until
    /// `by`, cut at the window's end; nothing if it does not fit 128 bits.
    pub open spec fn spec_interest_by(self, principal: u128, by: Timestamp) -> Option<u128> {
        match self.interest.spec_of(principal) {
            None => None,
            Some(per_year) => match checked_ratio(
                per_year,
                self.spec_elapsed(by),
                YEAR_NANOS as int,
                u128::MAX as int,
            ) {
                None => None,
                Some(due) => Some(due as u128),
            },
        }
    }

    /// The window left after `payment` went to the interest due by `by`, and
    /// the part of the payment that was not needed. The part of the elapsed
    /// span that is paid for is proportional to the part of the interest
    /// that is paid; where no interest is due the whole span is paid for.
    pub open spec fn spec_pay(self, principal: u128, payment: u128, by: Timestamp) -> Option<
        (InterestPeriod, u128),
    > {
        match self.spec_interest_by(principal, by) {
            None => None,
            Some(due) => {
                let repayment = if due <= payment {
                    due
                } else {
                    payment
                };
                let paid_for = mul_ratio(self.spec_elapsed(by), repayment as int, due as int);
                Some(
                    (
                        InterestPeriod {
                            start: Timestamp { nanos: (self.start.nanos + paid_for) as u64 },
                            length: Duration { nanos: (self.length.nanos - paid_for) as u64 },
                            interest: self.interest,
                        },
                        (payment - repayment) as u128,
                    ),
                )
            },
        }
    }

    /// The part of the elapsed span that a payment covers is within the
    /// elapsed span, so a paid window keeps its end and stays well-formed.
    pub proof fn lemma_pay_keeps_end(self, principal: u128, payment: u128, by: Timestamp)
        requires
            self.wf(),
            self.start.nanos <= by.nanos,
            self.spec_pay(principal, payment, by).is_some(),
        ensures
            self.spec_pay(principal, payment, by).unwrap().0.wf(),
            self.spec_pay(principal, payment, by).unwrap().0.spec_till() == self.spec_till(),
            self.spec_pay(principal, payment, by).unwrap().0.interest == self.interest,
            self.spec_pay(principal, payment, by).unwrap().0.start.nanos >= self.start.nanos,
            self.spec_pay(principal, payment, by).unwrap().0.start.nanos <= by.nanos,
            self.spec_pay(principal, payment, by).unwrap().1 <= payment,
    {
        let due = self.spec_interest_by(principal, by).unwrap();
        let repayment = if due <= payment {
            due
        } else {
            payment
        };
        let elapsed = self.spec_elapsed(by);
        if repayment != due {
            lemma_ratio_bounds(elapsed, repayment as int, due as int);
        }
    }

    /// A window bearing `interest` per year that starts at the epoch and
    /// spans nothing.
    pub fn with_interest(interest: Percent) -> (res: Self)
        ensures
            res == (InterestPeriod {
                start: Timestamp { nanos: 0 },
                length: Duration { nanos: 0 },
                interest,
            }),
    {
        InterestPeriod { start: Timestamp { nanos: 0 }, length: Duration { nanos: 0 }, interest }
    }

    /// The same window moved to start at `start`.
    pub fn from(self, start: Timestamp) -> (res: Self)
        ensures
            res == (InterestPeriod { start, ..self }),
    {
        InterestPeriod { start, length: self.length, interest: self.interest }
    }

    /// The same window with its span set to `length`.
    pub fn spanning(self, length: Duration) -> (res: Self)
        ensures
            res == (InterestPeriod { length, ..self }),
    {
        InterestPeriod { start: self.start, length, interest: self.interest }
    }

    /// The window with its start moved forward by `delta`; the end stays.
    pub fn shift_start(self, delta: Duration) -> (res: Self)
        requires
            self.wf(),
            delta.nanos <= self.length.nanos,
        ensures
            res.start.nanos == self.start.nanos + delta.nanos,
            res.length.nanos == self.length.nanos - delta.nanos,
            res.interest == self.interest,
            res.wf(),
            res.spec_till() == self.spec_till(),
    {
        InterestPeriod {
            start: Timestamp { nanos: self.start.nanos + delta.nanos },
            length: Duration { nanos: self.length.nanos - delta.nanos },
            interest: self.interest,
        }
    }

    /// Whether nothing of the window is left.
    pub fn zero_length(&self) -> (res: bool)
        ensures
            res == (self.length.nanos == 0),
    {
        self.length.nanos == 0
    }

    /// The start of the window.
    pub fn start(&self) -> (res: Timestamp)
        ensures
            res == self.start,
    {
        self.start
    }

    /// The end of the window.
    pub fn till(&self) -> (res: Timestamp)
        requires
            self.wf(),
        ensures
            res == self.spec_till(),
    {
        Timestamp { nanos: self.start.nanos + self.length.nanos }
    }

    /// The annual rate of the window.
    pub fn interest_rate(&self) -> (res: Percent)
        ensures
            res == self.interest,
    {
        self.interest
    }

    /// The interest `principal` bears over the whole window, or nothing if
    /// it does not fit 128 bits.
    pub fn interest(&self, principal: u128) -> (res: Option<u128>)
        requires
            self.wf(),
        ensures
            res == self.spec_interest_by(principal, self.spec_till()),
    {
        self.interest_by(principal, self.till())
    }

    /// The interest `principal` bears from the start of the window until
    /// `by`, cut at the window's end, or nothing if it does not fit 128 bits.
    pub fn interest_by(&self, principal: u128, by: Timestamp) -> (res: Option<u128>)
        requires
            self.wf(),
            self.start.nanos <= by.nanos,
        ensures
            res == self.spec_interest_by(principal, by),
    {
        let within: Timestamp = by.clamp(self.start, self.till());
        let period: Duration = Duration::between(self.start, within);
        match self.interest.checked_of(principal) {
            None => None,
            Some(per_year) => period.checked_annualized_slice_of(per_year),
        }
    }

    /// Applies `payment` to the interest that `principal` bears until `by`.
    /// Returns the window that is left and the change, or nothing if the
    /// interest due does not fit 128 bits.
    pub fn pay(self, principal: u128, payment: u128, by: Timestamp) -> (res: Option<
        (InterestPeriod, u128),
    >)
        requires
            self.wf(),
            self.start.nanos <= by.nanos,
        ensures
            res == self.spec_pay(principal, payment, by),
            res.is_some() ==> res.unwrap().0.wf(),
    {
        let within: Timestamp = by.clamp(self.start, self.till());
        match self.interest_by(principal, by) {
            None => None,
            Some(due) => {
                let repayment: u128 = if due <= payment {
                    due
                } else {
                    payment
                };
                let period: Duration = Duration::between(self.start, within);
                proof {
                    if repayment != due {
                        lemma_ratio_bounds(period.nanos as int, repayment as int, due as int);
                    }
                }
                let paid_for: Duration = period.into_slice_per_ratio(repayment, due);
                let change: u128 = payment - repayment;
                Some((self.shift_start(paid_for), change))
            },
        }
    }
}

} // verus!
