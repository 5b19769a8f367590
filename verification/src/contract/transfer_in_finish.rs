//! The closing lease whose transfer was acknowledged: it waits for the
//! funds to arrive.
use vstd::prelude::*;
use crate::api::{ClosingTrx, ExecuteMsg, MessageInfo, Operation, StateResponse};
use crate::batch::{Msg, Response as MessageResponse};
use crate::contract::closed::Closed;
use crate::contract::error::{ContractError, ContractResult};
use crate::contract::transfer_in_init::TransferInInit;
use crate::env::Env;
use crate::event::{Attribute, Emitter, EventKind, Type};
use crate::lease::Lease;
use crate::response::{setup_alarm, Response};
use crate::timestamp::Timestamp;
use crate::transfer_in_finish::POLLING_INTERVAL;

verus! {

/// The transfer of the lease's asset was acknowledged; its arrival in the
/// lease's local account is awaited.
#[derive(PartialEq, Eq, Debug)]
pub struct TransferInFinish {
    pub lease: Lease,
}

/// What a look at the local account makes of the closing lease.
#[derive(PartialEq, Eq, Debug)]
pub enum Completion {
    /// The funds have arrived: the lease is closed.
    Closed(Closed),
    /// The funds have not arrived: the lease keeps waiting.
    Waiting(TransferInFinish),
}

impl TransferInFinish {
    /// The step that follows the acknowledged transfer `init`.
    pub fn from(init: TransferInInit) -> (res: Self)
        ensures
            res == (TransferInFinish { lease: init.lease }),
    {
        TransferInFinish { lease: init.lease }
    }

    /// Whether the local account holds what was transferred.
    pub open spec fn spec_received(self, env: Env) -> bool {
        env.spec_balance(self.lease.amount.currency) >= self.lease.amount.amount
    }

    /// Whether `res` is what a look at the local account yields. If the
    /// funds are there, they are handed to the customer, an event tells of
    /// the closing and the lease is closed. If not, the lease keeps waiting
    /// and asks to be woken up one polling interval later.
    pub open spec fn spec_try_complete(self, env: Env, res: ContractResult<Response<Completion>>)
        -> bool {
        &&& res.is_ok()
        &&& if self.spec_received(env) {
            &&& res.unwrap().next_state == Completion::Closed(Closed {  })
            &&& res.unwrap().response.messages@ == seq![
                Msg::BankSend { to: self.lease.customer, amount: self.lease.amount },
            ]
            &&& res.unwrap().response.events@.len() == 1
            &&& res.unwrap().response.events@[0].kind == EventKind::Lease(Type::Closed)
            &&& res.unwrap().response.events@[0].attributes@ == seq![
                Attribute::Id(self.lease.addr),
                Attribute::At(env.now),
            ]
        } else {
            &&& res.unwrap().next_state == Completion::Waiting(self)
            &&& res.unwrap().response.messages@ == seq![
                Msg::AddTimeAlarm {
                    time_alarms: self.lease.time_alarms,
                    time: Timestamp { nanos: (env.now.nanos + POLLING_INTERVAL) as u64 },
                },
            ]
            &&& res.unwrap().response.events@ == Seq::<Emitter>::empty()
        }
    }

    /// Looks whether the funds have arrived.
    pub fn try_complete(self, env: &Env) -> (res: ContractResult<Response<Completion>>)
        requires
            env.inv(),
        ensures
            self.spec_try_complete(*env, res),
    {
        if env.balance(self.lease.amount.currency) >= self.lease.amount.amount {
            let closed: Closed = Closed {  };
            let batch = match closed.enter_state(&self.lease) {
                Ok(batch) => batch,
                Err(error) => { return Err(error); },
            };
            let emitter: Emitter = closed.emit_ok(env, &self.lease);
            Ok(
                Response::from(
                    MessageResponse::messages_with_events(batch, emitter),
                    Completion::Closed(closed),
                ),
            )
        } else {
            let batch = setup_alarm(&self.lease.time_alarms, env.now.plus_nanos(POLLING_INTERVAL));
            Ok(Response::from(MessageResponse::messages_only(batch), Completion::Waiting(self)))
        }
    }

    /// What `msg` makes of the waiting lease: a repayment and a closing are
    /// refused, a wake-up makes it look for the funds, a price alarm changes
    /// nothing.
    pub open spec fn spec_execute(
        self,
        env: Env,
        msg: ExecuteMsg,
        res: ContractResult<Response<Completion>>,
    ) -> bool {
        match msg {
            ExecuteMsg::Repay => res == Err::<Response<Completion>, ContractError>(
                ContractError::UnsupportedOperation(Operation::Repay),
            ),
            ExecuteMsg::Close => res == Err::<Response<Completion>, ContractError>(
                ContractError::UnsupportedOperation(Operation::Close),
            ),
            ExecuteMsg::TimeAlarm(_) => self.spec_try_complete(env, res),
            ExecuteMsg::PriceAlarm => {
                &&& res.is_ok()
                &&& res.unwrap().next_state == Completion::Waiting(self)
                &&& res.unwrap().response.messages@ == Seq::<Msg>::empty()
                &&& res.unwrap().response.events@ == Seq::<Emitter>::empty()
            },
        }
    }

    /// Takes a command or an alarm.
    pub fn execute(self, env: &Env, info: MessageInfo, msg: ExecuteMsg) -> (res: ContractResult<
        Response<Completion>,
    >)
        requires
            env.inv(),
        ensures
            self.spec_execute(*env, msg, res),
    {
        match msg {
            ExecuteMsg::Repay => Err(ContractError::UnsupportedOperation(Operation::Repay)),
            ExecuteMsg::Close => Err(ContractError::UnsupportedOperation(Operation::Close)),
            ExecuteMsg::TimeAlarm(_) => self.try_complete(env),
            ExecuteMsg::PriceAlarm => Ok(
                Response::from(MessageResponse::default(), Completion::Waiting(self)),
            ),
        }
    }

    /// The state of the lease as it is reported.
    pub fn state(self, now: Timestamp) -> (res: ContractResult<StateResponse>)
        ensures
            res == Ok::<StateResponse, ContractError>(
                StateResponse::Paid {
                    amount: self.lease.amount,
                    in_progress: Some(ClosingTrx::TransferInFinish),
                },
            ),
    {
        Ok(
            StateResponse::Paid {
                amount: self.lease.amount,
                in_progress: Some(ClosingTrx::TransferInFinish),
            },
        )
    }
}

} // verus!
