//! The closed lease.
use vstd::prelude::*;
use crate::api::{ExecuteMsg, MessageInfo, Operation, StateResponse};
use crate::batch::{Batch, Msg, Response as MessageResponse};
use crate::contract::error::{ContractError, ContractResult};
use crate::env::Env;
use crate::event::{Attribute, Emitter, EventKind, Type};
use crate::lease::Lease;
use crate::response::Response;
use crate::timestamp::Timestamp;

verus! {

/// The last state of a lease. It refuses repayments and closings and lets
/// alarms pass: alarms are not cancelled when a lease moves on, so late ones
/// do come.
#[derive(Clone, Copy, PartialEq, Eq, Structural, Debug, Default)]
pub struct Closed {}

impl Closed {
    /// The instruction that hands what the lease holds to its customer.
    pub fn enter_state(&self, lease: &Lease) -> (res: ContractResult<Batch>)
        ensures
            res.is_ok(),
            res.unwrap()@ == seq![Msg::BankSend { to: lease.customer, amount: lease.amount }],
    {
        let mut batch: Batch = Batch::default();
        batch.schedule_execute_no_reply(
            Msg::BankSend { to: lease.customer.clone(), amount: lease.amount },
        );
        Ok(batch)
    }

    /// The event that tells of the closing of `lease`.
    pub fn emit_ok(&self, env: &Env, lease: &Lease) -> (res: Emitter)
        ensures
            res.kind == EventKind::Lease(Type::Closed),
            res.attributes@ == seq![Attribute::Id(lease.addr), Attribute::At(env.now)],
    {
        let emitter = Emitter::of_type(EventKind::Lease(Type::Closed)).emit(
            Attribute::Id(lease.addr.clone()),
        ).emit_tx_info(env.now);
        assert(emitter.attributes@ =~= seq![Attribute::Id(lease.addr), Attribute::At(env.now)]);
        emitter
    }

    /// What `msg` makes of the closed lease: a repayment and a closing are
    /// refused, an alarm changes nothing and sends nothing.
    pub open spec fn spec_execute(self, msg: ExecuteMsg, res: ContractResult<Response<Closed>>)
        -> bool {
        match msg {
            ExecuteMsg::Repay => res == Err::<Response<Closed>, ContractError>(
                ContractError::UnsupportedOperation(Operation::Repay),
            ),
            ExecuteMsg::Close => res == Err::<Response<Closed>, ContractError>(
                ContractError::UnsupportedOperation(Operation::Close),
            ),
            ExecuteMsg::PriceAlarm | ExecuteMsg::TimeAlarm(_) => {
                &&& res.is_ok()
                &&& res.unwrap().next_state == self
                &&& res.unwrap().response.messages@ == Seq::<Msg>::empty()
                &&& res.unwrap().response.events@ == Seq::<Emitter>::empty()
            },
        }
    }

    /// Takes a command or an alarm.
    pub fn execute(self, env: &Env, info: MessageInfo, msg: ExecuteMsg) -> (res: ContractResult<
        Response<Closed>,
    >)
        ensures
            self.spec_execute(msg, res),
    {
        match msg {
            ExecuteMsg::Repay => Err(ContractError::UnsupportedOperation(Operation::Repay)),
            ExecuteMsg::Close => Err(ContractError::UnsupportedOperation(Operation::Close)),
            ExecuteMsg::PriceAlarm | ExecuteMsg::TimeAlarm(_) => Ok(
                Response::from(MessageResponse::default(), self),
            ),
        }
    }

    /// The state of the lease as it is reported.
    pub fn state(self, now: Timestamp) -> (res: ContractResult<StateResponse>)
        ensures
            res == Ok::<StateResponse, ContractError>(StateResponse::Closed),
    {
        Ok(StateResponse::Closed)
    }
}

} // verus!
