//! The active lease.
use vstd::prelude::*;
use crate::api::{ExecuteMsg, MessageInfo, StateResponse};
use crate::batch::{Batch, Msg, Response as MessageResponse};
use crate::coin::CoinDTO;
use crate::contract::error::{ContractError, ContractResult};
use crate::contract::transfer_in_init::TransferInInit;
use crate::env::Env;
use crate::event::{Attribute, Emitter, EventKind, Type};
use crate::lease::Lease;
use crate::loan::Loan;
use crate::response::Response;
use crate::timestamp::Timestamp;
use crate::transfer_in_init::is_transfer_in;

verus! {

/// The lease holds its asset and its loan accrues interest. It takes
/// repayments, and a closing moves it on.
#[derive(PartialEq, Eq, Debug)]
pub struct Active {
    pub lease: Lease,
}

/// What a command makes of the active lease.
#[derive(PartialEq, Eq, Debug)]
pub enum Next {
    /// The lease stays active.
    Active(Active),
    /// The lease is being closed.
    TransferInInit(TransferInInit),
}

/// The one payment that came with a command: the funds have to be one coin,
/// of the currency of the loan.
pub open spec fn spec_payment(funds: Seq<CoinDTO>, lease: Lease) -> ContractResult<u128> {
    if funds.len() == 0 {
        Err(ContractError::NoPaymentError)
    } else if funds.len() > 1 {
        Err(ContractError::UnexpectedFunds)
    } else if funds[0].currency != lease.lpn {
        Err(ContractError::PaymentCurrency { expected: lease.lpn, found: funds[0].currency })
    } else {
        Ok(funds[0].amount)
    }
}

impl Active {
    /// The loan of the lease is well-formed and its margin period has
    /// started.
    pub open spec fn inv(&self, env: Env) -> bool {
        &&& self.lease.wf()
        &&& self.lease.loan.current_period.start.nanos <= env.now.nanos
    }

    /// The active state of `lease`.
    pub fn new(lease: Lease) -> (res: Self)
        ensures
            res == (Active { lease }),
    {
        Active { lease }
    }

    /// Whether `res` is what a repayment with `funds` yields. The payment
    /// is allocated by the accrual engine against what the pool reports;
    /// what falls to the pool is sent to it, and an event tells of the
    /// repayment. A failure leaves nothing changed.
    pub open spec fn spec_repay(self, env: Env, funds: Seq<CoinDTO>, res: ContractResult<
        Response<Next>,
    >) -> bool {
        match spec_payment(funds, self.lease) {
            Err(error) => res == Err::<Response<Next>, ContractError>(error),
            Ok(payment) => match self.lease.loan.spec_repay(payment, env.now, env.lpp_loan) {
                Err(error) => res == Err::<Response<Next>, ContractError>(
                    ContractError::Loan(error),
                ),
                Ok((loan, loan_payment)) => {
                    &&& res.is_ok()
                    &&& res.unwrap().next_state == Next::Active(
                        Active { lease: Lease { loan, ..self.lease } },
                    )
                    &&& res.unwrap().response.messages@ == (if loan_payment == 0 {
                        Seq::<Msg>::empty()
                    } else {
                        seq![
                            Msg::RepayLoan {
                                lpp: self.lease.lpp,
                                amount: CoinDTO {
                                    amount: loan_payment,
                                    currency: self.lease.lpn,
                                },
                            },
                        ]
                    })
                    &&& res.unwrap().response.events@.len() == 1
                    &&& res.unwrap().response.events@[0].kind == EventKind::Lease(Type::PaidActive)
                    &&& res.unwrap().response.events@[0].attributes@ == seq![
                        Attribute::Id(self.lease.addr),
                        Attribute::At(env.now),
                        Attribute::Amount(CoinDTO { amount: payment, currency: self.lease.lpn }),
                    ]
                },
            },
        }
    }

    /// Whether `res` is what `msg` makes of the active lease: a repayment
    /// goes to the loan, a closing asks for the transfer of the asset, tells
    /// of it in an event and moves the lease on, an alarm changes nothing
    /// and sends nothing.
    pub open spec fn spec_execute(
        self,
        env: Env,
        funds: Seq<CoinDTO>,
        msg: ExecuteMsg,
        res: ContractResult<Response<Next>>,
    ) -> bool {
        match msg {
            ExecuteMsg::Repay => self.spec_repay(env, funds, res),
            ExecuteMsg::Close => {
                &&& res.is_ok()
                &&& res.unwrap().next_state == Next::TransferInInit(
                    TransferInInit { lease: self.lease },
                )
                &&& is_transfer_in(
                    res.unwrap().response.messages@,
                    self.lease.dex,
                    self.lease.amount,
                    env.now,
                )
                &&& res.unwrap().response.events@.len() == 1
                &&& res.unwrap().response.events@[0].kind == EventKind::Lease(
                    Type::ClosingTransferIn,
                )
                &&& res.unwrap().response.events@[0].attributes@ == seq![
                    Attribute::Id(self.lease.addr),
                    Attribute::At(env.now),
                    Attribute::Amount(self.lease.amount),
                ]
            },
            ExecuteMsg::PriceAlarm | ExecuteMsg::TimeAlarm(_) => {
                &&& res.is_ok()
                &&& res.unwrap().next_state == Next::Active(self)
                &&& res.unwrap().response.messages@ == Seq::<Msg>::empty()
                &&& res.unwrap().response.events@ == Seq::<Emitter>::empty()
            },
        }
    }

    fn repay(self, env: &Env, info: MessageInfo) -> (res: ContractResult<Response<Next>>)
        requires
            self.inv(*env),
        ensures
            self.spec_repay(*env, info.funds@, res),
    {
        if info.funds.len() == 0 {
            return Err(ContractError::NoPaymentError);
        }
        if info.funds.len() > 1 {
            return Err(ContractError::UnexpectedFunds);
        }
        let funds: CoinDTO = info.funds[0];
        if funds.currency != self.lease.lpn {
            return Err(
                ContractError::PaymentCurrency { expected: self.lease.lpn, found: funds.currency },
            );
        }
        let mut lease: Lease = self.lease;
        let mut loan: Loan = lease.loan;
        let loan_payment: Option<u128> = match loan.repay(funds.amount, env.now, env.lpp_loan) {
            Err(error) => { return Err(ContractError::Loan(error)); },
            Ok(loan_payment) => loan_payment,
        };
        let mut batch: Batch = Batch::default();
        match loan_payment {
            None => {},
            Some(amount) => {
                batch.schedule_execute_no_reply(
                    Msg::RepayLoan {
                        lpp: lease.lpp.clone(),
                        amount: CoinDTO { amount, currency: lease.lpn },
                    },
                );
            },
        }
        let emitter: Emitter = Emitter::of_type(EventKind::Lease(Type::PaidActive)).emit(
            Attribute::Id(lease.addr.clone()),
        ).emit_tx_info(env.now).emit(Attribute::Amount(funds));
        assert(emitter.attributes@ =~= seq![
            Attribute::Id(lease.addr),
            Attribute::At(env.now),
            Attribute::Amount(funds),
        ]);
        lease.loan = loan;
        Ok(
            Response::from(
                MessageResponse::messages_with_events(batch, emitter),
                Next::Active(Active { lease }),
            ),
        )
    }

    /// Takes a command or an alarm.
    pub fn execute(self, env: &Env, info: MessageInfo, msg: ExecuteMsg) -> (res: ContractResult<
        Response<Next>,
    >)
        requires
            env.inv(),
            self.inv(*env),
        ensures
            self.spec_execute(*env, info.funds@, msg, res),
    {
        match msg {
            ExecuteMsg::Repay => self.repay(env, info),
            ExecuteMsg::Close => {
                let emitter: Emitter = Emitter::of_type(
                    EventKind::Lease(Type::ClosingTransferIn),
                ).emit(Attribute::Id(self.lease.addr.clone())).emit_tx_info(env.now).emit(
                    Attribute::Amount(self.lease.amount),
                );
                assert(emitter.attributes@ =~= seq![
                    Attribute::Id(self.lease.addr),
                    Attribute::At(env.now),
                    Attribute::Amount(self.lease.amount),
                ]);
                let transfer_in: TransferInInit = TransferInInit::new(self.lease);
                match transfer_in.enter(env) {
                    Err(error) => Err(error),
                    Ok(batch) => Ok(
                        Response::from(
                            MessageResponse::messages_with_events(batch, emitter),
                            Next::TransferInInit(transfer_in),
                        ),
                    ),
                }
            },
            ExecuteMsg::PriceAlarm | ExecuteMsg::TimeAlarm(_) => Ok(
                Response::from(MessageResponse::default(), Next::Active(self)),
            ),
        }
    }

    /// The state of the lease as it is reported.
    pub fn state(self, now: Timestamp) -> (res: ContractResult<StateResponse>)
        ensures
            res == Ok::<StateResponse, ContractError>(
                StateResponse::Paid { amount: self.lease.amount, in_progress: None },
            ),
    {
        Ok(StateResponse::Paid { amount: self.lease.amount, in_progress: None })
    }
}

} // verus!
