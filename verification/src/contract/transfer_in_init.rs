//! The closing lease that has asked for the transfer of its asset to the
//! local network.
use vstd::prelude::*;
use crate::api::{ClosingTrx, ExecuteMsg, MessageInfo, Operation, StateResponse};
use crate::bank_ibc::{spec_new_msg, spec_remote_coin, Sender};
use crate::batch::{Batch, Msg, Response as MessageResponse};
use crate::connection::ConnectionParams;
use crate::contract::error::{ContractError, ContractResult};
use crate::contract::transfer_in_finish::{Completion, TransferInFinish};
use crate::env::Env;
use crate::event::{Emitter, Type};
use crate::lease::Lease;
use crate::response::{DexConnectable, Response};
use crate::timeout::{is_channel_repair, on_timeout_repair_channel};
use crate::timestamp::Timestamp;
use crate::transfer_in_init::is_transfer_in;

verus! {

/// The transfer of the lease's asset to the local network has been asked
/// for; its acknowledgment is awaited.
#[derive(PartialEq, Eq, Debug)]
pub struct TransferInInit {
    pub lease: Lease,
}

impl TransferInInit {
    /// The step that moves what `lease` holds back.
    pub fn new(lease: Lease) -> (res: Self)
        ensures
            res == (TransferInInit { lease }),
    {
        TransferInInit { lease }
    }

    /// The instruction that asks for the transfer.
    pub fn enter_state(&self, now: Timestamp) -> (res: ContractResult<Batch>)
        requires
            now.spec_allows_lookahead(),
        ensures
            res.is_ok(),
            is_transfer_in(res.unwrap()@, self.lease.dex, self.lease.amount, now),
    {
        let mut sender: Sender = self.lease.dex.transfer_from(now);
        sender.send(&self.lease.amount);
        proof {
            assert(sender.spec_msgs() =~= seq![
                spec_new_msg(
                    self.lease.dex.dex.transfer_channel.remote_endpoint,
                    self.lease.dex.host,
                    self.lease.dex.owner,
                    spec_remote_coin(self.lease.amount),
                    Timestamp { nanos: (now.nanos + crate::connection::IBC_TIMEOUT) as u64 },
                ),
            ]);
        }
        Ok(self.lease.dex.submit(sender.into_transaction()))
    }

    /// Enters the step at the time of `env`.
    pub fn enter(&self, env: &Env) -> (res: ContractResult<Batch>)
        requires
            env.inv(),
        ensures
            res.is_ok(),
            is_transfer_in(res.unwrap()@, self.lease.dex, self.lease.amount, env.now),
    {
        self.enter_state(env.now)
    }

    /// What `msg` makes of the closing lease: a repayment and a closing are
    /// refused, an alarm changes nothing and sends nothing.
    pub open spec fn spec_execute(
        self,
        msg: ExecuteMsg,
        res: ContractResult<Response<TransferInInit>>,
    ) -> bool {
        match msg {
            ExecuteMsg::Repay => res == Err::<Response<TransferInInit>, ContractError>(
                ContractError::UnsupportedOperation(Operation::Repay),
            ),
            ExecuteMsg::Close => res == Err::<Response<TransferInInit>, ContractError>(
                ContractError::UnsupportedOperation(Operation::Close),
            ),
            ExecuteMsg::PriceAlarm | ExecuteMsg::TimeAlarm(_) => {
                &&& res.is_ok()
                &&& res.unwrap().next_state == self
                &&& res.unwrap().response.messages@ == Seq::<Msg>::empty()
                &&& res.unwrap().response.events@ == Seq::<Emitter>::empty()
            },
        }
    }

    /// Takes a command or an alarm.
    pub fn execute(self, env: &Env, info: MessageInfo, msg: ExecuteMsg) -> (res: ContractResult<
        Response<TransferInInit>,
    >)
        ensures
            self.spec_execute(msg, res),
    {
        match msg {
            ExecuteMsg::Repay => Err(ContractError::UnsupportedOperation(Operation::Repay)),
            ExecuteMsg::Close => Err(ContractError::UnsupportedOperation(Operation::Close)),
            ExecuteMsg::PriceAlarm => Ok(Response::from(MessageResponse::default(), self)),
            ExecuteMsg::TimeAlarm(_) => Ok(Response::from(MessageResponse::default(), self)),
        }
    }

    /// Takes the acknowledgment of the transfer: from then on it is the
    /// arrival of the funds that is awaited, and a first look for them is
    /// taken at once.
    pub fn on_response(self, env: &Env) -> (res: ContractResult<Response<Completion>>)
        requires
            env.inv(),
        ensures
            (TransferInFinish { lease: self.lease }).spec_try_complete(*env, res),
    {
        TransferInFinish::from(self).try_complete(env)
    }

    /// Takes the timeout of the transfer: the channel is repaired and the
    /// lease stays in this step.
    pub fn on_timeout(self, env: &Env) -> (res: ContractResult<Response<TransferInInit>>)
        ensures
            res.is_ok(),
            res.unwrap().next_state == self,
            is_channel_repair(
                res.unwrap().response,
                self.lease.dex.dex.connection_id,
                Type::ClosingTransferIn,
                *env,
            ),
    {
        Ok(on_timeout_repair_channel(self, Type::ClosingTransferIn, env))
    }

    /// The state of the lease as it is reported.
    pub fn state(self, now: Timestamp) -> (res: ContractResult<StateResponse>)
        ensures
            res == Ok::<StateResponse, ContractError>(
                StateResponse::Paid {
                    amount: self.lease.amount,
                    in_progress: Some(ClosingTrx::TransferInInit),
                },
            ),
    {
        Ok(
            StateResponse::Paid {
                amount: self.lease.amount,
                in_progress: Some(ClosingTrx::TransferInInit),
            },
        )
    }
}

impl DexConnectable for TransferInInit {
    open spec fn spec_dex(&self) -> ConnectionParams {
        self.lease.dex.dex
    }

    fn dex(&self) -> (res: &ConnectionParams) {
        self.lease.dex.dex()
    }
}

} // verus!
