//! The purchase of the asset of a lease that is being opened.
use vstd::prelude::*;
use crate::address::Addr;
use crate::coin::{CoinDTO, Currency, Group};
use crate::connection::Account;
use crate::contract::error::{ContractError, ContractResult};
use crate::contract::paid::Active;
use crate::event::Type;
use crate::lease::Lease;
use crate::loan::Loan;
use crate::percent::Percent;
use crate::api::{OpeningTrx, StateResponse};
use crate::response::Contract;
use crate::swap_coins::on_coins;
use crate::swap_task::{CoinVisitor, IterNext, IterState, SwapTask};
use crate::timestamp::Timestamp;

verus! {

/// What a customer asks for when opening a lease.
#[derive(PartialEq, Eq, Debug)]
pub struct NewLease {
    /// The address of the lease.
    pub addr: Addr,
    /// Who the lease is opened for.
    pub customer: Addr,
    /// The currency of the asset to buy.
    pub asset: Currency,
    /// The currency of the loan.
    pub lpn: Currency,
    /// The pool that lends.
    pub lpp: Addr,
    /// The alarm service of the lease.
    pub time_alarms: Addr,
    pub annual_margin_interest: Percent,
    pub interest_due_period_secs: u32,
    pub grace_period_secs: u32,
}

/// The exchange of the downpayment and the principal for the asset.
#[derive(PartialEq, Eq, Debug)]
pub struct BuyAsset {
    pub form: NewLease,
    pub account: Account,
    pub downpayment: CoinDTO,
    /// The principal of the loan.
    pub loan: CoinDTO,
}

impl BuyAsset {
    /// The purchase for `form` with `downpayment` and `loan`, both held by
    /// `account`.
    pub fn new(form: NewLease, account: Account, downpayment: CoinDTO, loan: CoinDTO) -> (res:
        Self)
        ensures
            res == (BuyAsset { form, account, downpayment, loan }),
            res.wf(),
    {
        BuyAsset { form, account, downpayment, loan }
    }

    /// The lease that holds `amount_out` of the asset, its loan opened at
    /// `now`.
    pub open spec fn spec_active(self, amount_out: CoinDTO, now: Timestamp) -> ContractResult<
        Active,
    > {
        match Loan::spec_open(
            now,
            self.form.annual_margin_interest,
            self.form.interest_due_period_secs,
            self.form.grace_period_secs,
        ) {
            Err(error) => Err(ContractError::Loan(error)),
            Ok(loan) => Ok(
                Active {
                    lease: Lease {
                        addr: self.form.addr,
                        customer: self.form.customer,
                        amount: amount_out,
                        loan,
                        lpn: self.form.lpn,
                        lpp: self.form.lpp,
                        dex: self.account,
                        time_alarms: self.form.time_alarms,
                    },
                },
            ),
        }
    }
}

impl SwapTask for BuyAsset {
    type Result = ContractResult<Active>;

    /// The downpayment, then the principal.
    open spec fn spec_coins(&self) -> Seq<CoinDTO> {
        seq![self.downpayment, self.loan]
    }

    open spec fn spec_out_currency(&self) -> Currency {
        self.form.asset
    }

    open spec fn spec_out_group(&self) -> Group {
        Group::Lease
    }

    open spec fn spec_dex_account(&self) -> Account {
        self.account
    }

    open spec fn spec_time_alarm(&self) -> Addr {
        self.form.time_alarms
    }

    open spec fn spec_label(&self) -> Type {
        Type::OpeningSwap
    }

    open spec fn spec_finish(self, amount_out: CoinDTO, now: Timestamp) -> ContractResult<Active> {
        self.spec_active(amount_out, now)
    }

    fn label(&self) -> (res: Type) {
        Type::OpeningSwap
    }

    fn dex_account(&self) -> (res: &Account) {
        &self.account
    }

    fn time_alarm(&self) -> (res: &Addr) {
        &self.form.time_alarms
    }

    fn out_currency(&self) -> (res: Currency) {
        self.form.asset
    }

    fn out_group(&self) -> (res: Group) {
        Group::Lease
    }

    fn on_coins<V: CoinVisitor<Result = IterNext>>(&self, visitor: &mut V) -> (res: Result<
        IterState,
        V::Error,
    >) {
        on_coins(&self.downpayment, &self.loan, visitor)
    }

    fn finish(self, amount_out: CoinDTO, now: Timestamp) -> (res: ContractResult<Active>) {
        match Loan::open(
            now,
            self.form.annual_margin_interest,
            self.form.interest_due_period_secs,
            self.form.grace_period_secs,
        ) {
            Err(error) => Err(ContractError::Loan(error)),
            Ok(loan) => Ok(
                Active {
                    lease: Lease {
                        addr: self.form.addr,
                        customer: self.form.customer,
                        amount: amount_out,
                        loan,
                        lpn: self.form.lpn,
                        lpp: self.form.lpp,
                        dex: self.account,
                        time_alarms: self.form.time_alarms,
                    },
                },
            ),
        }
    }
}

impl Contract for BuyAsset {
    type StateResponse = StateResponse;

    open spec fn spec_state(self, now: Timestamp) -> StateResponse {
        StateResponse::Opening {
            downpayment: self.downpayment,
            loan: self.loan,
            step: OpeningTrx::BuyAsset,
        }
    }

    fn state(self, now: Timestamp) -> (res: StateResponse) {
        StateResponse::Opening {
            downpayment: self.downpayment,
            loan: self.loan,
            step: OpeningTrx::BuyAsset,
        }
    }
}

} // verus!
