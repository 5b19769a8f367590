//! The state of a lease and what each event makes of it.
use vstd::prelude::*;
use crate::api::{ExecuteMsg, MessageInfo, OpeningTrx, StateResponse};
use crate::batch::{Msg, Response as MessageResponse};
use crate::coin::CoinDTO;
use crate::contract::closed::Closed;
use crate::contract::error::{ContractError, ContractResult};
use crate::contract::opening::{BuyAssetSwap, OpenIcaAccount};
use crate::contract::paid::{Active, Next};
use crate::contract::transfer_in_finish::{Completion, TransferInFinish};
use crate::contract::transfer_in_init::TransferInInit;
use crate::env::Env;
use crate::event::{Attribute, Emitter, EventKind, Type};
use crate::ica::OpenAckVersion;
use crate::out_remote::State as SwapState;
use crate::resp_delivery::{Reply, ResponseDelivery, ResponseDeliveryImpl, REPLY_ID};
use crate::response::{Handler, HandlerResult, Response};
use crate::swap_task::SwapTask;
use crate::timeout::on_channel_repaired;
use crate::timestamp::Timestamp;

verus! {

/// The state of a lease. Exactly one state is live at a time; every event
/// replaces it as a whole.
#[derive(PartialEq, Eq, Debug)]
pub enum State {
    OpenIcaAccount(OpenIcaAccount),
    BuyAsset(BuyAssetSwap),
    /// The reply to the purchase has come and is being delivered.
    BuyAssetDelivery(ResponseDelivery<BuyAssetSwap>),
    Active(Active),
    TransferInInit(TransferInInit),
    TransferInFinish(TransferInFinish),
    Closed(Closed),
}

/// The phases of the life of a lease, in their order.
#[derive(Clone, Copy, PartialEq, Eq, Structural, Debug)]
pub enum Phase {
    Opening,
    Active,
    ClosingTransferIn,
    Closed,
}

impl Phase {
    /// The place of the phase in the life of a lease.
    pub open spec fn spec_rank(self) -> nat {
        match self {
            Phase::Opening => 0,
            Phase::Active => 1,
            Phase::ClosingTransferIn => 2,
            Phase::Closed => 3,
        }
    }

    /// Whether a lease in phase `self` may be in phase `next` after one
    /// event: it stays where it is or moves to the phase that follows.
    pub open spec fn spec_may_become(self, next: Phase) -> bool {
        self.spec_rank() <= next.spec_rank() <= self.spec_rank() + 1
    }
}

/// What an event makes of a lease: instructions for the runtime and the
/// state the lease is in from then on.
pub type StateResult = ContractResult<Response<State>>;

impl State {
    /// The phase the state belongs to.
    pub open spec fn spec_phase(&self) -> Phase {
        match self {
            State::OpenIcaAccount(_) => Phase::Opening,
            State::BuyAsset(_) => Phase::Opening,
            State::BuyAssetDelivery(_) => Phase::Opening,
            State::Active(_) => Phase::Active,
            State::TransferInInit(_) => Phase::ClosingTransferIn,
            State::TransferInFinish(_) => Phase::ClosingTransferIn,
            State::Closed(_) => Phase::Closed,
        }
    }

    /// What has to hold of the state for an event at the time of `env` to
    /// be taken: the loan of an active lease is well-formed and its margin
    /// period has started.
    pub open spec fn inv(&self, env: Env) -> bool {
        match self {
            State::Active(active) => active.inv(env),
            _ => true,
        }
    }

    /// The purchase whose reply `response` is to be delivered.
    pub open spec fn spec_delivery(swap: BuyAssetSwap, response: Vec<u8>) -> State {
        State::BuyAssetDelivery(
            ResponseDeliveryImpl {
                handler: swap,
                response,
                _delivery_adapter: core::marker::PhantomData,
            },
        )
    }

    /// The phase the state belongs to.
    pub fn phase(&self) -> (res: Phase)
        ensures
            res == self.spec_phase(),
    {
        match self {
            State::OpenIcaAccount(_) => Phase::Opening,
            State::BuyAsset(_) => Phase::Opening,
            State::BuyAssetDelivery(_) => Phase::Opening,
            State::Active(_) => Phase::Active,
            State::TransferInInit(_) => Phase::ClosingTransferIn,
            State::TransferInFinish(_) => Phase::ClosingTransferIn,
            State::Closed(_) => Phase::Closed,
        }
    }

    /// Whether `res` is what the command or alarm `msg` makes of the state:
    /// what the live state makes of it, the state it yields put in place of
    /// the live one.
    pub open spec fn spec_execute(
        self,
        env: Env,
        funds: Seq<CoinDTO>,
        msg: ExecuteMsg,
        res: StateResult,
    ) -> bool {
        match self {
            State::OpenIcaAccount(opening) => match res {
                Ok(response) => response.next_state is OpenIcaAccount && opening.spec_execute(
                    msg,
                    Ok(
                        Response {
                            response: response.response,
                            next_state: response.next_state->OpenIcaAccount_0,
                        },
                    ),
                ),
                Err(error) => opening.spec_execute(msg, Err(error)),
            },
            State::BuyAsset(swap) => match msg {
                ExecuteMsg::Repay => res == Err::<Response<State>, ContractError>(
                    ContractError::UnsupportedOperation(crate::api::Operation::Repay),
                ),
                ExecuteMsg::Close => res == Err::<Response<State>, ContractError>(
                    ContractError::UnsupportedOperation(crate::api::Operation::Close),
                ),
                ExecuteMsg::PriceAlarm | ExecuteMsg::TimeAlarm(_) => {
                    &&& res.is_ok()
                    &&& res.unwrap().next_state == self
                    &&& res.unwrap().response.messages@ == Seq::<Msg>::empty()
                    &&& res.unwrap().response.events@ == Seq::<Emitter>::empty()
                },
            },
            State::BuyAssetDelivery(delivery) => match msg {
                ExecuteMsg::Repay => res == Err::<Response<State>, ContractError>(
                    ContractError::UnsupportedOperation(crate::api::Operation::Repay),
                ),
                ExecuteMsg::Close => res == Err::<Response<State>, ContractError>(
                    ContractError::UnsupportedOperation(crate::api::Operation::Close),
                ),
                ExecuteMsg::TimeAlarm(_) => spec_buy_asset_delivered(
                    delivery.handler,
                    delivery.response@,
                    env,
                    res,
                ),
                ExecuteMsg::PriceAlarm => {
                    &&& res.is_ok()
                    &&& res.unwrap().next_state == self
                    &&& res.unwrap().response.messages@ == Seq::<Msg>::empty()
                    &&& res.unwrap().response.events@ == Seq::<Emitter>::empty()
                },
            },
            State::Active(active) => match res {
                Ok(response) => match response.next_state {
                    State::Active(next) => active.spec_execute(
                        env,
                        funds,
                        msg,
                        Ok(Response { response: response.response, next_state: Next::Active(next) }),
                    ),
                    State::TransferInInit(next) => active.spec_execute(
                        env,
                        funds,
                        msg,
                        Ok(
                            Response {
                                response: response.response,
                                next_state: Next::TransferInInit(next),
                            },
                        ),
                    ),
                    _ => false,
                },
                Err(error) => active.spec_execute(env, funds, msg, Err(error)),
            },
            State::TransferInInit(transfer) => match res {
                Ok(response) => response.next_state is TransferInInit && transfer.spec_execute(
                    msg,
                    Ok(
                        Response {
                            response: response.response,
                            next_state: response.next_state->TransferInInit_0,
                        },
                    ),
                ),
                Err(error) => transfer.spec_execute(msg, Err(error)),
            },
            State::TransferInFinish(transfer) => match res {
                Ok(response) => match response.next_state {
                    State::TransferInFinish(next) => transfer.spec_execute(
                        env,
                        msg,
                        Ok(
                            Response {
                                response: response.response,
                                next_state: Completion::Waiting(next),
                            },
                        ),
                    ),
                    State::Closed(next) => transfer.spec_execute(
                        env,
                        msg,
                        Ok(
                            Response {
                                response: response.response,
                                next_state: Completion::Closed(next),
                            },
                        ),
                    ),
                    _ => false,
                },
                Err(error) => transfer.spec_execute(env, msg, Err(error)),
            },
            State::Closed(closed) => match res {
                Ok(response) => response.next_state is Closed && closed.spec_execute(
                    msg,
                    Ok(
                        Response {
                            response: response.response,
                            next_state: response.next_state->Closed_0,
                        },
                    ),
                ),
                Err(error) => closed.spec_execute(msg, Err(error)),
            },
        }
    }

    /// Takes a command or an alarm. Every state takes every message: it
    /// acts on it, refuses it or lets it pass.
    pub fn execute(self, env: &Env, info: MessageInfo, msg: ExecuteMsg) -> (res: StateResult)
        requires
            env.inv(),
            self.inv(*env),
        ensures
            self.spec_execute(*env, info.funds@, msg, res),
            res.is_ok() ==> self.spec_phase().spec_may_become(res.unwrap().next_state.spec_phase()),
            self is Closed && (msg is Repay || msg is Close) ==> res.is_err(),
    {
        match self {
            State::OpenIcaAccount(opening) => match opening.execute(env, info, msg) {
                Err(error) => Err(error),
                Ok(response) => Ok(
                    Response {
                        response: response.response,
                        next_state: State::OpenIcaAccount(response.next_state),
                    },
                ),
            },
            State::BuyAsset(swap) => match msg {
                ExecuteMsg::Repay => Err(
                    ContractError::UnsupportedOperation(crate::api::Operation::Repay),
                ),
                ExecuteMsg::Close => Err(
                    ContractError::UnsupportedOperation(crate::api::Operation::Close),
                ),
                ExecuteMsg::PriceAlarm | ExecuteMsg::TimeAlarm(_) => Ok(
                    Response::from(MessageResponse::default(), State::BuyAsset(swap)),
                ),
            },
            State::BuyAssetDelivery(delivery) => match msg {
                ExecuteMsg::Repay => Err(
                    ContractError::UnsupportedOperation(crate::api::Operation::Repay),
                ),
                ExecuteMsg::Close => Err(
                    ContractError::UnsupportedOperation(crate::api::Operation::Close),
                ),
                ExecuteMsg::TimeAlarm(_) => buy_asset_delivered(delivery.on_time_alarm(env), env),
                ExecuteMsg::PriceAlarm => Ok(
                    Response::from(MessageResponse::default(), State::BuyAssetDelivery(delivery)),
                ),
            },
            State::Active(active) => match active.execute(env, info, msg) {
                Err(error) => Err(error),
                Ok(response) => Ok(
                    Response {
                        response: response.response,
                        next_state: match response.next_state {
                            Next::Active(next) => State::Active(next),
                            Next::TransferInInit(next) => State::TransferInInit(next),
                        },
                    },
                ),
            },
            State::TransferInInit(transfer) => match transfer.execute(env, info, msg) {
                Err(error) => Err(error),
                Ok(response) => Ok(
                    Response {
                        response: response.response,
                        next_state: State::TransferInInit(response.next_state),
                    },
                ),
            },
            State::TransferInFinish(transfer) => match transfer.execute(env, info, msg) {
                Err(error) => Err(error),
                Ok(response) => Ok(
                    Response {
                        response: response.response,
                        next_state: match response.next_state {
                            Completion::Waiting(next) => State::TransferInFinish(next),
                            Completion::Closed(next) => State::Closed(next),
                        },
                    },
                ),
            },
            State::Closed(closed) => match closed.execute(env, info, msg) {
                Err(error) => Err(error),
                Ok(response) => Ok(
                    Response {
                        response: response.response,
                        next_state: State::Closed(response.next_state),
                    },
                ),
            },
        }
    }

    /// Whether `res` is what the acknowledgment of the opening of the
    /// remote account makes of the state. The state that asked for the
    /// account moves on to the purchase. A state that awaits a reply had
    /// its channel repaired after a timeout: it takes its step again, with
    /// the instruction it sent before, and stays as it is. No other state
    /// awaits the acknowledgment.
    pub open spec fn spec_on_open_ica(self, ack: OpenAckVersion, env: Env, res: StateResult)
        -> bool {
        match self {
            State::OpenIcaAccount(opening) => match res {
                Ok(response) => response.next_state is BuyAsset && opening.spec_on_open_ica(
                    ack,
                    env,
                    Ok(
                        Response {
                            response: response.response,
                            next_state: response.next_state->BuyAsset_0,
                        },
                    ),
                ),
                Err(error) => opening.spec_on_open_ica(ack, env, Err(error)),
            },
            State::BuyAsset(swap) => {
                &&& res.is_ok()
                &&& res.unwrap().next_state == self
                &&& res.unwrap().response.events@ == Seq::<Emitter>::empty()
                &&& swap.spec_is_swap(res.unwrap().response.messages@)
            },
            State::TransferInInit(transfer) => {
                &&& res.is_ok()
                &&& res.unwrap().next_state == self
                &&& res.unwrap().response.events@ == Seq::<Emitter>::empty()
                &&& crate::transfer_in_init::is_transfer_in(
                    res.unwrap().response.messages@,
                    transfer.lease.dex,
                    transfer.lease.amount,
                    env.now,
                )
            },
            _ => res == Err::<Response<State>, ContractError>(ContractError::UnexpectedOutcome),
        }
    }

    /// Takes the acknowledgment of the opening of the remote account.
    pub fn on_open_ica(self, ack: OpenAckVersion, env: &Env) -> (res: StateResult)
        requires
            env.inv(),
        ensures
            self.spec_on_open_ica(ack, *env, res),
            res.is_ok() ==> self.spec_phase().spec_may_become(res.unwrap().next_state.spec_phase()),
            self is Closed ==> res.is_err(),
    {
        match self {
            State::OpenIcaAccount(opening) => match opening.on_open_ica(ack, env) {
                Err(error) => Err(error),
                Ok(response) => Ok(
                    Response {
                        response: response.response,
                        next_state: State::BuyAsset(response.next_state),
                    },
                ),
            },
            State::BuyAsset(swap) => match on_channel_repaired(swap, env) {
                Err(error) => Err(ContractError::Dex(error)),
                Ok(response) => Ok(
                    Response {
                        response: response.response,
                        next_state: State::BuyAsset(response.next_state),
                    },
                ),
            },
            State::TransferInInit(transfer) => match transfer.enter(env) {
                Err(error) => Err(error),
                Ok(batch) => Ok(
                    Response::from(
                        MessageResponse::messages_only(batch),
                        State::TransferInInit(transfer),
                    ),
                ),
            },
            _ => Err(ContractError::UnexpectedOutcome),
        }
    }

    /// Whether `res` is what the reply `data` to a remote transaction makes
    /// of the state. The purchase captures its reply for delivery and has
    /// the contract call itself to deliver it at once. The transfer takes
    /// its acknowledgment and looks for the funds. No other state awaits a
    /// reply.
    pub open spec fn spec_on_response(self, data: Vec<u8>, env: Env, res: StateResult) -> bool {
        match self {
            State::BuyAsset(swap) => {
                &&& res.is_ok()
                &&& res.unwrap().next_state == Self::spec_delivery(swap, data)
                &&& res.unwrap().response.messages@ == seq![
                    Msg::ForwardToInner { contract: env.contract, reply_on_error_id: REPLY_ID },
                ]
                &&& res.unwrap().response.events@ == Seq::<Emitter>::empty()
            },
            State::TransferInInit(transfer) => match res {
                Ok(response) => match response.next_state {
                    State::TransferInFinish(next) => (TransferInFinish {
                        lease: transfer.lease,
                    }).spec_try_complete(
                        env,
                        Ok(
                            Response {
                                response: response.response,
                                next_state: Completion::Waiting(next),
                            },
                        ),
                    ),
                    State::Closed(next) => (TransferInFinish {
                        lease: transfer.lease,
                    }).spec_try_complete(
                        env,
                        Ok(
                            Response {
                                response: response.response,
                                next_state: Completion::Closed(next),
                            },
                        ),
                    ),
                    _ => false,
                },
                Err(error) => false,
            },
            _ => res == Err::<Response<State>, ContractError>(ContractError::UnexpectedOutcome),
        }
    }

    /// Takes the reply to a remote transaction.
    pub fn on_response(self, data: Vec<u8>, env: &Env) -> (res: StateResult)
        requires
            env.inv(),
        ensures
            self.spec_on_response(data, *env, res),
            res.is_ok() ==> self.spec_phase().spec_may_become(res.unwrap().next_state.spec_phase()),
            self is Closed ==> res.is_err(),
    {
        match self {
            State::BuyAsset(swap) => {
                let delivery: ResponseDelivery<BuyAssetSwap> = ResponseDelivery::new(swap, data);
                match delivery.enter(env.contract.clone()) {
                    Err(error) => Err(ContractError::Dex(error)),
                    Ok(batch) => Ok(
                        Response::from(
                            MessageResponse::messages_only(batch),
                            State::BuyAssetDelivery(delivery),
                        ),
                    ),
                }
            },
            State::TransferInInit(transfer) => match transfer.on_response(env) {
                Err(error) => Err(error),
                Ok(response) => Ok(
                    Response {
                        response: response.response,
                        next_state: match response.next_state {
                            Completion::Waiting(next) => State::TransferInFinish(next),
                            Completion::Closed(next) => State::Closed(next),
                        },
                    },
                ),
            },
            _ => Err(ContractError::UnexpectedOutcome),
        }
    }

    /// Whether `res` is what the contract's call to itself makes of the
    /// state: a pending delivery is made. No other state awaits the call.
    pub open spec fn spec_on_inner(self, env: Env, res: StateResult) -> bool {
        match self {
            State::BuyAssetDelivery(delivery) => spec_buy_asset_delivered(
                delivery.handler,
                delivery.response@,
                env,
                res,
            ),
            _ => res == Err::<Response<State>, ContractError>(ContractError::UnexpectedOutcome),
        }
    }

    /// Takes the contract's call to itself. If this fails, the runtime
    /// undoes it and reports the failure.
    pub fn on_inner(self, env: &Env) -> (res: StateResult)
        requires
            env.inv(),
        ensures
            self.spec_on_inner(*env, res),
            res.is_ok() ==> self.spec_phase().spec_may_become(res.unwrap().next_state.spec_phase()),
            self is Closed ==> res.is_err(),
    {
        match self {
            State::BuyAssetDelivery(delivery) => buy_asset_delivered(delivery.on_inner(env), env),
            _ => Err(ContractError::UnexpectedOutcome),
        }
    }

    /// Whether `res` is what the runtime's report `msg` makes of the state.
    /// The report that the delivery at once failed makes a pending delivery
    /// ask for a wake-up, tell of it in an event and stay as it is. No other
    /// report is awaited, and no other state awaits one.
    pub open spec fn spec_reply(self, env: Env, msg: Reply, res: StateResult) -> bool {
        match self {
            State::BuyAssetDelivery(delivery) => if msg.id == REPLY_ID && msg.failed {
                match res {
                    Ok(response) => response.next_state is BuyAssetDelivery && delivery.spec_reply(
                        env,
                        Ok(
                            Response {
                                response: response.response,
                                next_state: response.next_state->BuyAssetDelivery_0,
                            },
                        ),
                    ),
                    Err(_) => false,
                }
            } else {
                res == Err::<Response<State>, ContractError>(ContractError::UnexpectedOutcome)
            },
            _ => res == Err::<Response<State>, ContractError>(ContractError::UnexpectedOutcome),
        }
    }

    /// Takes the runtime's report on an instruction that asked for one.
    pub fn reply(self, env: &Env, msg: Reply) -> (res: StateResult)
        requires
            env.inv(),
        ensures
            self.spec_reply(*env, msg, res),
            res.is_ok() ==> res.unwrap().next_state == self,
            self is Closed ==> res.is_err(),
    {
        match self {
            State::BuyAssetDelivery(delivery) => {
                if msg.id != REPLY_ID || !msg.failed {
                    return Err(ContractError::UnexpectedOutcome);
                }
                match delivery.reply(env, msg) {
                    Err(error) => Err(ContractError::Dex(error)),
                    Ok(response) => Ok(
                        Response {
                            response: response.response,
                            next_state: State::BuyAssetDelivery(response.next_state),
                        },
                    ),
                }
            },
            _ => Err(ContractError::UnexpectedOutcome),
        }
    }

    /// Whether `res` is what a timeout of a remote transaction makes of the
    /// state: a state that awaits a reply has the channel repaired and
    /// stays as it is; no other state awaits a timeout.
    pub open spec fn spec_on_timeout(self, env: Env, res: StateResult) -> bool {
        match self {
            State::BuyAsset(swap) => {
                &&& res.is_ok()
                &&& res.unwrap().next_state == self
                &&& crate::timeout::is_channel_repair(
                    res.unwrap().response,
                    swap.spec.account.dex.connection_id,
                    Type::OpeningSwap,
                    env,
                )
            },
            State::TransferInInit(transfer) => {
                &&& res.is_ok()
                &&& res.unwrap().next_state == self
                &&& crate::timeout::is_channel_repair(
                    res.unwrap().response,
                    transfer.lease.dex.dex.connection_id,
                    Type::ClosingTransferIn,
                    env,
                )
            },
            _ => res == Err::<Response<State>, ContractError>(ContractError::UnexpectedOutcome),
        }
    }

    /// Takes the timeout of a remote transaction.
    pub fn on_timeout(self, env: &Env) -> (res: StateResult)
        requires
            env.inv(),
        ensures
            self.spec_on_timeout(*env, res),
            res.is_ok() ==> res.unwrap().next_state == self,
            self is Closed ==> res.is_err(),
    {
        match self {
            State::BuyAsset(swap) => match swap.on_timeout(env) {
                Err(error) => Err(ContractError::Dex(error)),
                Ok(response) => Ok(
                    Response {
                        response: response.response,
                        next_state: match response.next_state {
                            crate::out_remote::State::SwapExactIn(next) => State::BuyAsset(next),
                        },
                    },
                ),
            },
            State::TransferInInit(transfer) => match transfer.on_timeout(env) {
                Err(error) => Err(error),
                Ok(response) => Ok(
                    Response {
                        response: response.response,
                        next_state: State::TransferInInit(response.next_state),
                    },
                ),
            },
            _ => Err(ContractError::UnexpectedOutcome),
        }
    }

    /// The state of the lease as it is reported. Asking changes nothing.
    pub open spec fn spec_state(&self) -> StateResponse {
        match self {
            State::OpenIcaAccount(opening) => StateResponse::Opening {
                downpayment: opening.downpayment,
                loan: opening.loan,
                step: OpeningTrx::OpenIcaAccount,
            },
            State::BuyAsset(swap) => StateResponse::Opening {
                downpayment: swap.spec.downpayment,
                loan: swap.spec.loan,
                step: OpeningTrx::BuyAsset,
            },
            State::BuyAssetDelivery(delivery) => StateResponse::Opening {
                downpayment: delivery.handler.spec.downpayment,
                loan: delivery.handler.spec.loan,
                step: OpeningTrx::BuyAsset,
            },
            State::Active(active) => StateResponse::Paid {
                amount: active.lease.amount,
                in_progress: None,
            },
            State::TransferInInit(transfer) => StateResponse::Paid {
                amount: transfer.lease.amount,
                in_progress: Some(crate::api::ClosingTrx::TransferInInit),
            },
            State::TransferInFinish(transfer) => StateResponse::Paid {
                amount: transfer.lease.amount,
                in_progress: Some(crate::api::ClosingTrx::TransferInFinish),
            },
            State::Closed(_) => StateResponse::Closed,
        }
    }

    /// Reports the state of the lease.
    pub fn state(&self, now: Timestamp) -> (res: StateResponse)
        ensures
            res == self.spec_state(),
    {
        match self {
            State::OpenIcaAccount(opening) => StateResponse::Opening {
                downpayment: opening.downpayment,
                loan: opening.loan,
                step: OpeningTrx::OpenIcaAccount,
            },
            State::BuyAsset(swap) => StateResponse::Opening {
                downpayment: swap.spec.downpayment,
                loan: swap.spec.loan,
                step: OpeningTrx::BuyAsset,
            },
            State::BuyAssetDelivery(delivery) => StateResponse::Opening {
                downpayment: delivery.handler.spec.downpayment,
                loan: delivery.handler.spec.loan,
                step: OpeningTrx::BuyAsset,
            },
            State::Active(active) => StateResponse::Paid {
                amount: active.lease.amount,
                in_progress: None,
            },
            State::TransferInInit(transfer) => StateResponse::Paid {
                amount: transfer.lease.amount,
                in_progress: Some(crate::api::ClosingTrx::TransferInInit),
            },
            State::TransferInFinish(transfer) => StateResponse::Paid {
                amount: transfer.lease.amount,
                in_progress: Some(crate::api::ClosingTrx::TransferInFinish),
            },
            State::Closed(_) => StateResponse::Closed,
        }
    }
}

/// Whether `res` is what the delivery of the reply `data` to the purchase
/// `swap` yields. A reply that cannot be read fails. What a readable reply
/// reports is the asset of the lease: its loan is opened at the time of the
/// delivery, an event tells of the opening, and the lease is active.
pub open spec fn spec_buy_asset_delivered(
    swap: BuyAssetSwap,
    data: Seq<u8>,
    env: Env,
    res: StateResult,
) -> bool {
    match crate::swap_exact_in::spec_decode_response(
        swap.spec.spec_coins().len() as int,
        swap.spec.spec_out_currency(),
        swap.spec.spec_out_group(),
        data,
    ) {
        Err(error) => res == Err::<Response<State>, ContractError>(ContractError::Dex(error)),
        Ok(amount_out) => match swap.spec.spec_finish(amount_out, env.now) {
            Err(error) => res == Err::<Response<State>, ContractError>(error),
            Ok(active) => {
                &&& res.is_ok()
                &&& res.unwrap().next_state == State::Active(active)
                &&& res.unwrap().response.messages@ == Seq::<Msg>::empty()
                &&& res.unwrap().response.events@.len() == 1
                &&& res.unwrap().response.events@[0].kind == EventKind::Lease(Type::OpenedActive)
                &&& res.unwrap().response.events@[0].attributes@ == seq![
                    Attribute::Id(active.lease.addr),
                    Attribute::At(env.now),
                    Attribute::Amount(amount_out),
                ]
            },
        },
    }
}

/// Makes the lease active with what the purchase yielded.
fn buy_asset_delivered(
    delivered: HandlerResult<SwapState<crate::contract::buy_asset::BuyAsset>, ContractResult<Active>>,
    env: &Env,
) -> (res: StateResult)
    ensures
        match delivered {
            HandlerResult::Continue(Err(error)) => res == Err::<Response<State>, ContractError>(
                ContractError::Dex(error),
            ),
            HandlerResult::Continue(Ok(_)) => res == Err::<Response<State>, ContractError>(
                ContractError::UnexpectedOutcome,
            ),
            HandlerResult::Finished(Err(error)) => res == Err::<Response<State>, ContractError>(
                error,
            ),
            HandlerResult::Finished(Ok(active)) => {
                &&& res.is_ok()
                &&& res.unwrap().next_state == State::Active(active)
                &&& res.unwrap().response.messages@ == Seq::<Msg>::empty()
                &&& res.unwrap().response.events@.len() == 1
                &&& res.unwrap().response.events@[0].kind == EventKind::Lease(Type::OpenedActive)
                &&& res.unwrap().response.events@[0].attributes@ == seq![
                    Attribute::Id(active.lease.addr),
                    Attribute::At(env.now),
                    Attribute::Amount(active.lease.amount),
                ]
            },
        },
{
    match delivered {
        HandlerResult::Continue(Err(error)) => Err(ContractError::Dex(error)),
        HandlerResult::Continue(Ok(_)) => Err(ContractError::UnexpectedOutcome),
        HandlerResult::Finished(Err(error)) => Err(error),
        HandlerResult::Finished(Ok(active)) => {
            let emitter: Emitter = Emitter::of_type(EventKind::Lease(Type::OpenedActive)).emit(
                Attribute::Id(active.lease.addr.clone()),
            ).emit_tx_info(env.now).emit(Attribute::Amount(active.lease.amount));
            assert(emitter.attributes@ =~= seq![
                Attribute::Id(active.lease.addr),
                Attribute::At(env.now),
                Attribute::Amount(active.lease.amount),
            ]);
            let mut response: MessageResponse = MessageResponse::default();
            response.events.push(emitter);
            assert(response.events@ =~= seq![emitter]);
            Ok(Response::from(response, State::Active(active)))
        },
    }
}

/// Whether one event can take a lease from `from` to `to`: some command,
/// alarm, acknowledgment, reply, timeout, call to itself or report of the
/// runtime, under some circumstances, yields `to`.
#[verifier::opaque]
pub open spec fn spec_step(from: State, to: State) -> bool {
    ||| exists|env: Env, funds: Seq<CoinDTO>, msg: ExecuteMsg, response: MessageResponse|
        #[trigger] from.spec_execute(env, funds, msg, Ok(Response { response, next_state: to }))
    ||| exists|ack: OpenAckVersion, env: Env, response: MessageResponse|
        #[trigger] from.spec_on_open_ica(ack, env, Ok(Response { response, next_state: to }))
    ||| exists|data: Vec<u8>, env: Env, response: MessageResponse|
        #[trigger] from.spec_on_response(data, env, Ok(Response { response, next_state: to }))
    ||| exists|env: Env, response: MessageResponse|
        #[trigger] from.spec_on_inner(env, Ok(Response { response, next_state: to }))
    ||| exists|env: Env, msg: Reply, response: MessageResponse|
        #[trigger] from.spec_reply(env, msg, Ok(Response { response, next_state: to }))
    ||| exists|env: Env, response: MessageResponse|
        #[trigger] from.spec_on_timeout(env, Ok(Response { response, next_state: to }))
}

/// One event takes a lease to a state of the same phase or of the phase
/// that follows, and a closed lease stays closed.
pub proof fn lemma_step_is_monotone(from: State, to: State)
    requires
        spec_step(from, to),
    ensures
        from.spec_phase().spec_may_become(to.spec_phase()),
        from is Closed ==> to == from,
{
    reveal(spec_step);
}

/// A closed lease takes neither a repayment nor a closing: both fail, under
/// any circumstances.
pub proof fn lemma_closed_refuses(
    closed: Closed,
    env: Env,
    funds: Seq<CoinDTO>,
    msg: ExecuteMsg,
    res: StateResult,
)
    requires
        msg is Repay || msg is Close,
        State::Closed(closed).spec_execute(env, funds, msg, res),
    ensures
        res.is_err(),
{
}

/// Whether one event can take a lease from the `index`-th state of
/// `states` to the one after it.
pub open spec fn spec_step_at(states: Seq<State>, index: int) -> bool {
    spec_step(states[index], states[index + 1])
}

/// Whether `states` is a run of a lease: each state but the first is what
/// one event makes of the state before it.
pub open spec fn spec_is_run(states: Seq<State>) -> bool {
    forall|i: int| 0 <= i < states.len() - 1 ==> #[trigger] spec_step_at(states, i)
}

/// The phase of the `index`-th state of `states`.
pub open spec fn spec_phase_at(states: Seq<State>, index: int) -> Phase {
    states[index].spec_phase()
}

/// Whether the phase of the state after the `index`-th of `states` is the
/// phase of the `index`-th or the one that follows it.
pub open spec fn spec_follows_at(states: Seq<State>, index: int) -> bool {
    spec_phase_at(states, index).spec_may_become(spec_phase_at(states, index + 1))
}

/// The phases of the states from the `from`-th to the `to`-th of a run
/// never go back.
proof fn lemma_ranks_grow(states: Seq<State>, from: int, to: int)
    requires
        0 <= from <= to < states.len(),
        spec_is_run(states),
    ensures
        spec_phase_at(states, from).spec_rank() <= spec_phase_at(states, to).spec_rank(),
        spec_phase_at(states, from) == Phase::Closed ==> spec_phase_at(states, to)
            == Phase::Closed,
    decreases to - from,
{
    if from < to {
        lemma_ranks_grow(states, from, to - 1);
        assert(spec_step_at(states, to - 1));
        lemma_step_is_monotone(states[to - 1], states[to]);
    }
}

/// The life of a lease runs one way: along any run of events its phases
/// never go back and none is skipped, so that a lease that starts opening
/// is active next, then closing, then closed; and a lease that is closed
/// stays closed.
pub proof fn lemma_life_cycle_is_monotone(states: Seq<State>)
    requires
        spec_is_run(states),
    ensures
        forall|i: int, j: int|
            0 <= i <= j < states.len() ==> (#[trigger] spec_phase_at(states, i)).spec_rank() <= (
            #[trigger] spec_phase_at(states, j)).spec_rank(),
        forall|i: int| 0 <= i < states.len() - 1 ==> #[trigger] spec_follows_at(states, i),
        forall|i: int, j: int|
            0 <= i <= j < states.len() && #[trigger] spec_phase_at(states, i) == Phase::Closed
                ==> #[trigger] spec_phase_at(states, j) == Phase::Closed,
{
    assert forall|i: int, j: int| 0 <= i <= j < states.len() implies (#[trigger] spec_phase_at(
        states,
        i,
    )).spec_rank() <= (#[trigger] spec_phase_at(states, j)).spec_rank() by {
        lemma_ranks_grow(states, i, j);
    }
    assert forall|i: int| 0 <= i < states.len() - 1 implies #[trigger] spec_follows_at(
        states,
        i,
    ) by {
        assert(spec_step_at(states, i));
        lemma_step_is_monotone(states[i], states[i + 1]);
    }
    assert forall|i: int, j: int|
        0 <= i <= j < states.len() && #[trigger] spec_phase_at(states, i)
            == Phase::Closed implies #[trigger] spec_phase_at(states, j) == Phase::Closed by {
        lemma_ranks_grow(states, i, j);
    }
}

} // verus!
