//! The interest and margin accrual engine of a lease's loan.
//!
//! The pool that lent the principal reports what it holds on the loan; the
//! engine adds the margin interest of the current period, allocates a
//! repayment to margin interest first and then to the pool, and rolls the
//! margin period forward once it is paid up.
use vstd::prelude::*;
use crate::duration::Duration;
use crate::interest::InterestPeriod;
use crate::percent::Percent;
use crate::timestamp::Timestamp;

verus! {

/// What the pool holds on an open loan.
#[derive(Clone, Copy, PartialEq, Eq, Structural, Debug)]
pub struct LppLoan {
    /// The principal that is still to be repaid.
    pub principal_due: u128,
    /// The annual rate the pool charges on the principal.
    pub annual_interest_rate: Percent,
    /// The point in time until which the pool's interest is paid.
    pub interest_paid: Timestamp,
}

impl LppLoan {
    /// The window from the point until which interest is paid to `by`.
    pub open spec fn spec_due_period(self, by: Timestamp) -> InterestPeriod {
        InterestPeriod {
            start: self.interest_paid,
            length: Duration {
                nanos: if by.nanos <= self.interest_paid.nanos {
                    0
                } else {
                    (by.nanos - self.interest_paid.nanos) as u64
                },
            },
            interest: self.annual_interest_rate,
        }
    }

    /// The pool's interest due by `by`; nothing if it does not fit 128 bits.
    pub open spec fn spec_interest_due(self, by: Timestamp) -> Option<u128> {
        self.spec_due_period(by).spec_interest_by(
            self.principal_due,
            self.spec_due_period(by).spec_till(),
        )
    }

    /// The principal that is still to be repaid.
    pub fn principal_due(&self) -> (res: u128)
        ensures
            res == self.principal_due,
    {
        self.principal_due
    }

    /// The annual rate the pool charges.
    pub fn annual_interest_rate(&self) -> (res: Percent)
        ensures
            res == self.annual_interest_rate,
    {
        self.annual_interest_rate
    }

    /// The pool's interest due by `by`, or nothing if it does not fit 128
    /// bits. Before the point until which interest is paid nothing is due.
    pub fn interest_due(&self, by: Timestamp) -> (res: Option<u128>)
        ensures
            res == self.spec_interest_due(by),
    {
        let time: Timestamp = if by.nanos <= self.interest_paid.nanos {
            self.interest_paid
        } else {
            by
        };
        let period: InterestPeriod = InterestPeriod::with_interest(self.annual_interest_rate).from(
            self.interest_paid,
        ).spanning(Duration::between(self.interest_paid, time));
        period.interest(self.principal_due)
    }
}

/// Why the engine could not serve a request.
#[derive(Clone, Copy, PartialEq, Eq, Structural, Debug)]
pub enum LoanError {
    /// The pool reports no open loan.
    LoanClosed,
    /// An amount or a point in time left the range the protocol computes in.
    Overflow,
}

/// The debt at a moment.
#[derive(Clone, Copy, PartialEq, Eq, Structural, Debug)]
pub struct State {
    /// The pool's rate plus the margin rate.
    pub annual_interest: Percent,
    pub principal_due: u128,
    /// The pool's interest due plus the margin interest due.
    pub interest_due: u128,
}

/// The debt at a moment, split into what fell due in earlier periods and
/// what accrues in the current one.
#[derive(Clone, Copy, PartialEq, Eq, Structural, Debug)]
pub struct DueBreakdown {
    pub principal_due: u128,
    pub previous_margin_interest_due: u128,
    pub previous_interest_due: u128,
    pub current_margin_interest_due: u128,
    pub current_interest_due: u128,
}

/// The total debt and the part of it that is interest of earlier periods.
#[derive(Clone, Copy, PartialEq, Eq, Structural, Debug)]
pub struct LiabilityStatus {
    pub total: u128,
    pub previous_interest: u128,
}

impl DueBreakdown {
    /// The interest of earlier periods: margin and pool interest together.
    pub open spec fn spec_previous_interest(self) -> int {
        self.previous_margin_interest_due + self.previous_interest_due
    }

    /// Everything that is owed.
    pub open spec fn spec_total(self) -> int {
        self.principal_due + self.spec_previous_interest() + self.current_margin_interest_due
            + self.current_interest_due
    }

    /// The total debt and the interest of earlier periods, or `Overflow` if
    /// the total does not fit 128 bits. The interest of earlier periods never
    /// exceeds the total.
    pub fn liability_status(&self) -> (res: Result<LiabilityStatus, LoanError>)
        ensures
            self.spec_total() <= u128::MAX ==> res == Ok::<LiabilityStatus, LoanError>(
                (LiabilityStatus {
                    total: self.spec_total() as u128,
                    previous_interest: self.spec_previous_interest() as u128,
                }),
            ),
            self.spec_total() > u128::MAX ==> res == Err::<LiabilityStatus, LoanError>(
                LoanError::Overflow,
            ),
            res.is_ok() ==> res.unwrap().previous_interest <= res.unwrap().total,
    {
        let previous_interest: u128 = match self.previous_margin_interest_due.checked_add(
            self.previous_interest_due,
        ) {
            Some(sum) => sum,
            None => { return Err(LoanError::Overflow); },
        };
        let with_principal: u128 = match self.principal_due.checked_add(previous_interest) {
            Some(sum) => sum,
            None => { return Err(LoanError::Overflow); },
        };
        let with_margin: u128 = match with_principal.checked_add(
            self.current_margin_interest_due,
        ) {
            Some(sum) => sum,
            None => { return Err(LoanError::Overflow); },
        };
        match with_margin.checked_add(self.current_interest_due) {
            Some(total) => Ok(LiabilityStatus { total, previous_interest }),
            None => Err(LoanError::Overflow),
        }
    }
}

/// The loan of one lease: the margin rate, the configured periods and the
/// margin period that is currently accruing.
#[derive(Clone, Copy, PartialEq, Eq, Structural, Debug)]
pub struct Loan {
    pub annual_margin_interest: Percent,
    pub interest_due_period_secs: u32,
    pub grace_period_secs: u32,
    pub current_period: InterestPeriod,
}

impl Loan {
    /// The current margin period ends at a representable point in time and
    /// bears the margin rate.
    pub open spec fn wf(self) -> bool {
        &&& self.current_period.wf()
        &&& self.current_period.interest == self.annual_margin_interest
    }

    /// The margin period that follows `period`: it starts where `period`
    /// ends, bears the margin rate and spans the configured due period.
    /// Nothing if its end is not representable.
    pub open spec fn spec_next_period(self, period: InterestPeriod) -> Option<InterestPeriod> {
        let next = InterestPeriod {
            start: period.spec_till(),
            length: Duration { nanos: (self.interest_due_period_secs * 1_000_000_000) as u64 },
            interest: self.annual_margin_interest,
        };
        if next.wf() {
            Some(next)
        } else {
            None
        }
    }

    /// The loan after a repayment and the amount that goes to the pool.
    ///
    /// The payment goes to the margin interest of the current period first.
    /// If change is left and the period is paid up, the pool's interest due
    /// at the period's start is looked at: if the change covers it, the next
    /// period opens and what is left after the pool's interest goes to the
    /// new period's margin interest; the pool gets its interest and what the
    /// new period did not need. Otherwise the pool gets the change.
    pub open spec fn spec_repay(self, payment: u128, by: Timestamp, pool: Option<LppLoan>)
        -> Result<(Loan, u128), LoanError> {
        match pool {
            None => Err(LoanError::LoanClosed),
            Some(lpp_loan) => match self.current_period.spec_pay(
                lpp_loan.principal_due,
                payment,
                by,
            ) {
                None => Err(LoanError::Overflow),
                Some((paid_period, change)) => if change == 0 || paid_period.length.nanos != 0 {
                    Ok((Loan { current_period: paid_period, ..self }, change))
                } else {
                    match lpp_loan.spec_interest_due(paid_period.start) {
                        None => Err(LoanError::Overflow),
                        Some(loan_interest_due) => if loan_interest_due <= change {
                            match self.spec_next_period(paid_period) {
                                None => Err(LoanError::Overflow),
                                Some(next_period) => match next_period.spec_pay(
                                    lpp_loan.principal_due,
                                    (change - loan_interest_due) as u128,
                                    by,
                                ) {
                                    None => Err(LoanError::Overflow),
                                    Some((next_paid, next_change)) => Ok(
                                        (
                                            Loan { current_period: next_paid, ..self },
                                            (loan_interest_due + next_change) as u128,
                                        ),
                                    ),
                                },
                            }
                        } else {
                            Ok((Loan { current_period: paid_period, ..self }, change))
                        },
                    }
                },
            },
        }
    }

    /// The margin interest that `principal` bears from the start of the
    /// current period until `now`, whatever the period's configured span.
    pub open spec fn spec_margin_interest_due(self, principal: u128, now: Timestamp) -> Option<
        u128,
    > {
        let elapsed = InterestPeriod {
            start: self.current_period.start,
            length: Duration { nanos: (now.nanos - self.current_period.start.nanos) as u64 },
            interest: self.current_period.interest,
        };
        elapsed.spec_interest_by(principal, elapsed.spec_till())
    }

    /// The debt at `now`: the pool's report merged with the margin interest
    /// of the current period.
    pub open spec fn spec_state(self, now: Timestamp, pool: Option<LppLoan>) -> Result<
        State,
        LoanError,
    > {
        match pool {
            None => Err(LoanError::LoanClosed),
            Some(lpp_loan) => match (
                self.spec_margin_interest_due(lpp_loan.principal_due, now),
                lpp_loan.spec_interest_due(now),
            ) {
                (Some(margin_due), Some(loan_due)) => if margin_due + loan_due <= u128::MAX
                    && lpp_loan.annual_interest_rate.units + self.annual_margin_interest.units
                    <= u32::MAX {
                    Ok(
                        State {
                            annual_interest: Percent {
                                units: (lpp_loan.annual_interest_rate.units
                                    + self.annual_margin_interest.units) as u32,
                            },
                            principal_due: lpp_loan.principal_due,
                            interest_due: (margin_due + loan_due) as u128,
                        },
                    )
                } else {
                    Err(LoanError::Overflow)
                },
                _ => Err(LoanError::Overflow),
            },
        }
    }

    /// The loan whose first margin period starts at `start`; `Overflow` if
    /// the end of that period is not representable.
    pub open spec fn spec_open(
        start: Timestamp,
        annual_margin_interest: Percent,
        interest_due_period_secs: u32,
        grace_period_secs: u32,
    ) -> Result<Loan, LoanError> {
        if start.nanos + interest_due_period_secs * 1_000_000_000 <= u64::MAX {
            Ok(
                Loan {
                    annual_margin_interest,
                    interest_due_period_secs,
                    grace_period_secs,
                    current_period: InterestPeriod {
                        start,
                        length: Duration {
                            nanos: (interest_due_period_secs * 1_000_000_000) as u64,
                        },
                        interest: annual_margin_interest,
                    },
                },
            )
        } else {
            Err(LoanError::Overflow)
        }
    }

    /// Opens a loan whose first margin period starts at `start`. Fails with
    /// `Overflow` if the end of that period is not representable.
    pub fn open(
        start: Timestamp,
        annual_margin_interest: Percent,
        interest_due_period_secs: u32,
        grace_period_secs: u32,
    ) -> (res: Result<Loan, LoanError>)
        ensures
            res == Self::spec_open(
                start,
                annual_margin_interest,
                interest_due_period_secs,
                grace_period_secs,
            ),
            res.is_ok() ==> res.unwrap().wf(),
            res.is_ok() ==> res.unwrap().current_period.start == start,
    {
        let span: Duration = Duration::from_secs(interest_due_period_secs);
        if span.nanos > u64::MAX - start.nanos {
            return Err(LoanError::Overflow);
        }
        Ok(
            Loan {
                annual_margin_interest,
                interest_due_period_secs,
                grace_period_secs,
                current_period: InterestPeriod::with_interest(annual_margin_interest).from(
                    start,
                ).spanning(span),
            },
        )
    }

    /// Whether the pool reports the loan as closed.
    pub fn closed(pool: &Option<LppLoan>) -> (res: bool)
        ensures
            res == pool.is_none(),
    {
        pool.is_none()
    }

    /// The annual margin rate.
    pub fn annual_margin_interest(&self) -> (res: Percent)
        ensures
            res == self.annual_margin_interest,
    {
        self.annual_margin_interest
    }

    /// The grace period in seconds.
    pub fn grace_period_secs(&self) -> (res: u32)
        ensures
            res == self.grace_period_secs,
    {
        self.grace_period_secs
    }

    /// The margin period that is accruing.
    pub fn current_period(&self) -> (res: InterestPeriod)
        ensures
            res == self.current_period,
    {
        self.current_period
    }

    /// Applies `payment` to the margin interest of the current period and
    /// returns the change. On failure the loan is left as it was.
    fn repay_margin_interest(&mut self, principal_due: u128, by: Timestamp, payment: u128) -> (res:
        Option<u128>)
        requires
            old(self).wf(),
            old(self).current_period.start.nanos <= by.nanos,
        ensures
            match old(self).current_period.spec_pay(principal_due, payment, by) {
                Some((period, change)) => res == Some(change) && *final(self) == (Loan {
                    current_period: period,
                    ..*old(self)
                }),
                None => res.is_none() && *final(self) == *old(self),
            },
            final(self).wf(),
            final(self).current_period.spec_till() == old(self).current_period.spec_till(),
            final(self).current_period.start.nanos <= by.nanos,
            res.is_some() ==> res.unwrap() <= payment,
    {
        proof {
            if self.current_period.spec_pay(principal_due, payment, by).is_some() {
                self.current_period.lemma_pay_keeps_end(principal_due, payment, by);
            }
        }
        match self.current_period.pay(principal_due, payment, by) {
            Some((period, change)) => {
                self.current_period = period;
                Some(change)
            },
            None => None,
        }
    }

    /// Opens the margin period that follows the current one, which has to be
    /// paid up. Returns whether the new period's end is representable; if it
    /// is not, the loan is left as it was.
    fn open_next_period(&mut self) -> (res: bool)
        requires
            old(self).wf(),
            old(self).current_period.length.nanos == 0,
        ensures
            match old(self).spec_next_period(old(self).current_period) {
                Some(next) => res && *final(self) == (Loan { current_period: next, ..*old(self) }),
                None => !res && *final(self) == *old(self),
            },
            final(self).wf(),
            final(self).current_period.start == old(self).current_period.start,
    {
        let start: Timestamp = self.current_period.till();
        let span: Duration = Duration::from_secs(self.interest_due_period_secs);
        if span.nanos > u64::MAX - start.nanos {
            return false;
        }
        self.current_period = InterestPeriod::with_interest(self.annual_margin_interest).from(
            start,
        ).spanning(span);
        true
    }

    /// Allocates `payment`, received at `by`, to margin interest and to the
    /// pool. Returns the amount to send to the pool, which is never more
    /// than the payment, or nothing when the pool is owed nothing of it. Fails with `LoanClosed` when the pool reports
    /// no open loan and with `Overflow` when an amount does not fit; a failed
    /// repayment leaves the loan as it was.
    pub fn repay(&mut self, payment: u128, by: Timestamp, pool: Option<LppLoan>) -> (res: Result<
        Option<u128>,
        LoanError,
    >)
        requires
            old(self).wf(),
            old(self).current_period.start.nanos <= by.nanos,
        ensures
            match old(self).spec_repay(payment, by, pool) {
                Ok((loan, loan_payment)) => *final(self) == loan && res == Ok::<
                    Option<u128>,
                    LoanError,
                >(
                    if loan_payment == 0 {
                        None
                    } else {
                        Some(loan_payment)
                    },
                ),
                Err(e) => *final(self) == *old(self) && res == Err::<Option<u128>, LoanError>(e),
            },
            final(self).wf(),
            final(self).current_period.start.nanos <= by.nanos,
            res.is_ok() && res.unwrap().is_some() ==> res.unwrap().unwrap() <= payment,
    {
        let lpp_loan: LppLoan = match pool {
            Some(lpp_loan) => lpp_loan,
            None => { return Err(LoanError::LoanClosed); },
        };
        let principal_due: u128 = lpp_loan.principal_due;
        let mut updated: Loan = *self;
        let change: u128 = match updated.repay_margin_interest(principal_due, by, payment) {
            Some(change) => change,
            None => { return Err(LoanError::Overflow); },
        };
        if change == 0 {
            *self = updated;
            return Ok(None);
        }
        let loan_payment: u128 = if updated.current_period.zero_length() {
            let loan_interest_due: u128 = match lpp_loan.interest_due(
                updated.current_period.start(),
            ) {
                Some(due) => due,
                None => { return Err(LoanError::Overflow); },
            };
            if loan_interest_due <= change {
                let paid_period: Ghost<InterestPeriod> = Ghost(updated.current_period);
                if !updated.open_next_period() {
                    return Err(LoanError::Overflow);
                }
                let surplus: u128 = change - loan_interest_due;
                match updated.repay_margin_interest(principal_due, by, surplus) {
                    Some(next_change) => {
                        proof {
                            let next = old(self).spec_next_period(paid_period@).unwrap();
                            next.lemma_pay_keeps_end(principal_due, surplus, by);
                        }
                        loan_interest_due + next_change
                    },
                    None => { return Err(LoanError::Overflow); },
                }
            } else {
                change
            }
        } else {
            change
        };
        *self = updated;
        if loan_payment == 0 {
            Ok(None)
        } else {
            Ok(Some(loan_payment))
        }
    }

    /// The debt at `now`, split at the end of the current margin period. If
    /// `now` is past that end, what accrued until the end fell due in an
    /// earlier period and what accrued since is current; otherwise all that
    /// accrued is current.
    pub open spec fn spec_due_breakdown(self, now: Timestamp, pool: Option<LppLoan>) -> Result<
        DueBreakdown,
        LoanError,
    > {
        match pool {
            None => Err(LoanError::LoanClosed),
            Some(lpp_loan) => {
                let till = self.current_period.spec_till();
                let overdue = now.nanos > till.nanos;
                let from = if overdue {
                    till
                } else {
                    self.current_period.start
                };
                let current = InterestPeriod {
                    start: from,
                    length: Duration { nanos: (now.nanos - from.nanos) as u64 },
                    interest: self.current_period.interest,
                };
                let previous_margin = if overdue {
                    self.current_period.spec_interest_by(lpp_loan.principal_due, till)
                } else {
                    Some(0u128)
                };
                let previous_interest = if overdue {
                    lpp_loan.spec_interest_due(till)
                } else {
                    Some(0u128)
                };
                match (
                    previous_margin,
                    current.spec_interest_by(lpp_loan.principal_due, now),
                    previous_interest,
                    lpp_loan.spec_interest_due(now),
                ) {
                    (
                        Some(previous_margin_interest_due),
                        Some(current_margin_interest_due),
                        Some(previous_interest_due),
                        Some(interest_due),
                    ) => if previous_interest_due <= interest_due {
                        Ok(
                            DueBreakdown {
                                principal_due: lpp_loan.principal_due,
                                previous_margin_interest_due,
                                previous_interest_due,
                                current_margin_interest_due,
                                current_interest_due: (interest_due - previous_interest_due) as u128,
                            },
                        )
                    } else {
                        Err(LoanError::Overflow)
                    },
                    _ => Err(LoanError::Overflow),
                }
            },
        }
    }

    /// The debt at `now`, split into what fell due in earlier periods and
    /// what accrues in the current one. Fails with `LoanClosed` when the pool
    /// reports no open loan and with `Overflow` when an amount does not fit.
    pub fn due_breakdown(&self, now: Timestamp, pool: Option<LppLoan>) -> (res: Result<
        DueBreakdown,
        LoanError,
    >)
        requires
            self.wf(),
            self.current_period.start.nanos <= now.nanos,
        ensures
            res == self.spec_due_breakdown(now, pool),
    {
        let lpp_loan: LppLoan = match pool {
            Some(lpp_loan) => lpp_loan,
            None => { return Err(LoanError::LoanClosed); },
        };
        let till: Timestamp = self.current_period.till();
        let overdue: bool = now.nanos > till.nanos;
        let from: Timestamp = if overdue {
            till
        } else {
            self.current_period.start()
        };
        let current: InterestPeriod = self.current_period.from(from).spanning(
            Duration::between(from, now),
        );
        let previous_margin: Option<u128> = if overdue {
            self.current_period.interest_by(lpp_loan.principal_due, till)
        } else {
            Some(0)
        };
        let previous_interest: Option<u128> = if overdue {
            lpp_loan.interest_due(till)
        } else {
            Some(0)
        };
        match (
            previous_margin,
            current.interest_by(lpp_loan.principal_due, now),
            previous_interest,
            lpp_loan.interest_due(now),
        ) {
            (
                Some(previous_margin_interest_due),
                Some(current_margin_interest_due),
                Some(previous_interest_due),
                Some(interest_due),
            ) => {
                if previous_interest_due <= interest_due {
                    Ok(
                        DueBreakdown {
                            principal_due: lpp_loan.principal_due,
                            previous_margin_interest_due,
                            previous_interest_due,
                            current_margin_interest_due,
                            current_interest_due: interest_due - previous_interest_due,
                        },
                    )
                } else {
                    Err(LoanError::Overflow)
                }
            },
            _ => Err(LoanError::Overflow),
        }
    }

    /// The total debt at `now` and the part of it that is interest of
    /// earlier periods; that part never exceeds the total. Fails with
    /// `LoanClosed` when the pool reports no open loan and with `Overflow`
    /// when an amount does not fit.
    pub fn liability_status(&self, now: Timestamp, pool: Option<LppLoan>) -> (res: Result<
        LiabilityStatus,
        LoanError,
    >)
        requires
            self.wf(),
            self.current_period.start.nanos <= now.nanos,
        ensures
            match self.spec_due_breakdown(now, pool) {
                Err(error) => res == Err::<LiabilityStatus, LoanError>(error),
                Ok(due) => res == (if due.spec_total() <= u128::MAX {
                    Ok::<LiabilityStatus, LoanError>(
                        (LiabilityStatus {
                            total: due.spec_total() as u128,
                            previous_interest: due.spec_previous_interest() as u128,
                        }),
                    )
                } else {
                    Err::<LiabilityStatus, LoanError>(LoanError::Overflow)
                }),
            },
            res.is_ok() ==> res.unwrap().previous_interest <= res.unwrap().total,
    {
        match self.due_breakdown(now, pool) {
            Err(error) => Err(error),
            Ok(due) => due.liability_status(),
        }
    }

    /// The debt at `now`. Fails with `LoanClosed` when the pool reports no
    /// open loan and with `Overflow` when an amount or a rate does not fit.
    pub fn state(&self, now: Timestamp, pool: Option<LppLoan>) -> (res: Result<State, LoanError>)
        requires
            self.wf(),
            self.current_period.start.nanos <= now.nanos,
        ensures
            res == self.spec_state(now, pool),
    {
        let lpp_loan: LppLoan = match pool {
            Some(lpp_loan) => lpp_loan,
            None => { return Err(LoanError::LoanClosed); },
        };
        let margin_period: InterestPeriod = self.current_period.spanning(
            Duration::between(self.current_period.start(), now),
        );
        let margin_due: u128 = match margin_period.interest(lpp_loan.principal_due) {
            Some(due) => due,
            None => { return Err(LoanError::Overflow); },
        };
        let loan_due: u128 = match lpp_loan.interest_due(now) {
            Some(due) => due,
            None => { return Err(LoanError::Overflow); },
        };
        let interest_due: u128 = match margin_due.checked_add(loan_due) {
            Some(sum) => sum,
            None => { return Err(LoanError::Overflow); },
        };
        match lpp_loan.annual_interest_rate.checked_add(self.annual_margin_interest) {
            Some(annual_interest) => Ok(
                State { annual_interest, principal_due: lpp_loan.principal_due, interest_due },
            ),
            None => Err(LoanError::Overflow),
        }
    }
}

/// One repayment: the amount, the time it was received at and what the pool
/// reported on the loan at that time.
#[derive(Clone, Copy, PartialEq, Eq, Structural, Debug)]
pub struct Repayment {
    pub payment: u128,
    pub by: Timestamp,
    pub pool: Option<LppLoan>,
}

impl Loan {
    /// The loan after `repayment`; a failed repayment leaves it as it was.
    pub open spec fn spec_after(self, repayment: Repayment) -> Loan {
        match self.spec_repay(repayment.payment, repayment.by, repayment.pool) {
            Ok((loan, _)) => loan,
            Err(_) => self,
        }
    }

    /// The amount that `repayment` makes the engine request the pool to
    /// take, if it requests any.
    pub open spec fn spec_request(self, repayment: Repayment) -> Option<u128> {
        match self.spec_repay(repayment.payment, repayment.by, repayment.pool) {
            Ok((_, loan_payment)) => if loan_payment == 0 {
                None
            } else {
                Some(loan_payment)
            },
            Err(_) => None,
        }
    }

    /// The amount that `repayment` leaves for the pool after margin interest.
    pub open spec fn spec_loan_payment(self, repayment: Repayment) -> int {
        match self.spec_repay(repayment.payment, repayment.by, repayment.pool) {
            Ok((_, loan_payment)) => loan_payment as int,
            Err(_) => 0,
        }
    }

    /// The sum of the amounts requested from the pool over a sequence of
    /// repayments, each applied to the loan the one before left.
    pub open spec fn spec_requested_total(self, repayments: Seq<Repayment>) -> int
        decreases repayments.len(),
    {
        if repayments.len() == 0 {
            0
        } else {
            (match self.spec_request(repayments[0]) {
                Some(amount) => amount as int,
                None => 0,
            }) + self.spec_after(repayments[0]).spec_requested_total(repayments.skip(1))
        }
    }

    /// The sum of the non-zero amounts left for the pool over a sequence of
    /// repayments, each applied to the loan the one before left.
    pub open spec fn spec_loan_payment_total(self, repayments: Seq<Repayment>) -> int
        decreases repayments.len(),
    {
        if repayments.len() == 0 {
            0
        } else {
            (if self.spec_loan_payment(repayments[0]) != 0 {
                self.spec_loan_payment(repayments[0])
            } else {
                0
            }) + self.spec_after(repayments[0]).spec_loan_payment_total(repayments.skip(1))
        }
    }
}

/// Over any sequence of repayments the pool is asked for exactly the sum of
/// the non-zero amounts that the repayments leave for it, and a repayment
/// that leaves nothing for the pool asks it for nothing.
pub proof fn lemma_requests_match_loan_payments(loan: Loan, repayments: Seq<Repayment>)
    ensures
        loan.spec_requested_total(repayments) == loan.spec_loan_payment_total(repayments),
        forall|i: int|
            0 <= i < repayments.len() ==> (#[trigger] loan_before(loan, repayments, i).spec_request(
                repayments[i],
            ).is_none() <==> loan_before(loan, repayments, i).spec_loan_payment(repayments[i])
                == 0),
    decreases repayments.len(),
{
    if repayments.len() > 0 {
        lemma_requests_match_loan_payments(loan.spec_after(repayments[0]), repayments.skip(1));
    }
}

/// The loan as the first `count` repayments of a sequence leave it.
pub open spec fn loan_before(loan: Loan, repayments: Seq<Repayment>, count: int) -> Loan
    decreases count,
{
    if count <= 0 || count > repayments.len() {
        loan
    } else {
        loan_before(loan, repayments, count - 1).spec_after(repayments[count - 1])
    }
}

/// Opening the next margin period changes nothing that is due: the debt at
/// any moment is the same right after the rollover as right before it.
pub proof fn lemma_rollover_keeps_debt(loan: Loan, now: Timestamp, pool: Option<LppLoan>)
    requires
        loan.wf(),
        loan.current_period.length.nanos == 0,
        loan.spec_next_period(loan.current_period).is_some(),
    ensures
        ({
            let rolled = Loan {
                current_period: loan.spec_next_period(loan.current_period).unwrap(),
                ..loan
            };
            &&& rolled.wf()
            &&& rolled.spec_state(now, pool) == loan.spec_state(now, pool)
            &&& forall|principal: u128| #[trigger]
                rolled.spec_margin_interest_due(principal, now) == loan.spec_margin_interest_due(
                    principal,
                    now,
                )
        }),
{
}

} // verus!
