//! The step that moves the outcome of a swap from the remote account to the
//! local one.
use vstd::prelude::*;
use crate::bank_ibc::{spec_new_msg, spec_remote_coin, Sender};
use crate::batch::{Batch, Msg};
use crate::coin::CoinDTO;
use crate::connection::{is_submission, Account, ConnectionParams, IBC_TIMEOUT};
use crate::env::Env;
use crate::error::Error;
use crate::out_local::State;
use crate::address::Addr;
use crate::response::{
    setup_alarm, ContinueResult, DexConnectable, Enterable, Handler, HandlerResult, TimeAlarm,
};
use crate::swap_task::SwapTask;
use crate::timeout::{is_channel_repair, on_timeout_repair_channel};
use crate::timestamp::Timestamp;
use crate::transfer_in_finish::TransferInFinish;

verus! {

/// The transfer of `amount_in` to the local network has been asked for; its
/// acknowledgment is awaited.
#[derive(PartialEq, Eq, Debug)]
pub struct TransferInInit<SwapTask> {
    pub spec: SwapTask,
    pub amount_in: CoinDTO,
}

/// Whether `batch` is the one instruction that has `account` transfer
/// `amount` to its local owner, the transfer being void once the transfer
/// timeout has passed after `now`.
pub open spec fn is_transfer_in(batch: Seq<Msg>, account: Account, amount: CoinDTO, now: Timestamp)
    -> bool {
    is_submission(
        batch,
        account.dex.connection_id,
        seq![
            spec_new_msg(
                account.dex.transfer_channel.remote_endpoint,
                account.host,
                account.owner,
                spec_remote_coin(amount),
                Timestamp { nanos: (now.nanos + IBC_TIMEOUT) as u64 },
            ),
        ],
    )
}

impl<T: SwapTask> TransferInInit<T> {
    /// The step that transfers `amount_in` for the task `spec`.
    pub fn new(spec: T, amount_in: CoinDTO) -> (res: Self)
        ensures
            res == (TransferInInit { spec, amount_in }),
    {
        TransferInInit { spec, amount_in }
    }

    /// The instruction that asks for the transfer.
    pub fn enter_state(&self, now: Timestamp) -> (res: Result<Batch, Error>)
        requires
            now.spec_allows_lookahead(),
        ensures
            res.is_ok(),
            is_transfer_in(res.unwrap()@, self.spec.spec_dex_account(), self.amount_in, now),
    {
        let account: &Account = self.spec.dex_account();
        let mut sender: Sender = account.transfer_from(now);
        sender.send(&self.amount_in);
        proof {
            assert(sender.spec_msgs() =~= seq![
                spec_new_msg(
                    account.dex.transfer_channel.remote_endpoint,
                    account.host,
                    account.owner,
                    spec_remote_coin(self.amount_in),
                    Timestamp { nanos: (now.nanos + IBC_TIMEOUT) as u64 },
                ),
            ]);
        }
        Ok(account.submit(sender.into_transaction()))
    }
}

impl<T: SwapTask> Enterable for TransferInInit<T> {
    open spec fn enterable_inv(&self) -> bool {
        true
    }

    open spec fn spec_enter(&self, now: Timestamp, res: Result<Batch, Error>) -> bool {
        &&& res.is_ok()
        &&& is_transfer_in(res.unwrap()@, self.spec.spec_dex_account(), self.amount_in, now)
    }

    fn enter(&self, now: Timestamp) -> (res: Result<Batch, Error>) {
        self.enter_state(now)
    }
}

impl<T: SwapTask> TimeAlarm for TransferInInit<T> {
    open spec fn spec_time_alarms(&self) -> Addr {
        self.spec.spec_time_alarm()
    }

    fn setup_alarm(&self, forr: Timestamp) -> (res: Batch) {
        setup_alarm(self.spec.time_alarm(), forr)
    }
}

impl<T: SwapTask> DexConnectable for TransferInInit<T> {
    open spec fn spec_dex(&self) -> ConnectionParams {
        self.spec.spec_dex_account().dex
    }

    fn dex(&self) -> (res: &ConnectionParams) {
        self.spec.dex_account().dex()
    }
}

impl<T: SwapTask> Handler for TransferInInit<T> {
    type Response = State<T>;

    type SwapResult = T::Result;

    open spec fn handler_inv(&self) -> bool {
        true
    }

    /// The acknowledgment says that the funds left the remote account: from
    /// then on it is their arrival that is awaited.
    open spec fn spec_on_response(
        self,
        response: Seq<u8>,
        env: Env,
        res: HandlerResult<State<T>, T::Result>,
    ) -> bool {
        (TransferInFinish { spec: self.spec, amount_in: self.amount_in }).spec_try_complete(
            env,
            res,
        )
    }

    open spec fn spec_on_timeout(self, env: Env, res: ContinueResult<State<T>>) -> bool {
        &&& res.is_ok()
        &&& res.unwrap().next_state == State::TransferInInit(self)
        &&& is_channel_repair(
            res.unwrap().response,
            self.spec.spec_dex_account().dex.connection_id,
            self.spec.spec_label(),
            env,
        )
    }

    open spec fn spec_on_time_alarm(self, env: Env, res: HandlerResult<State<T>, T::Result>)
        -> bool {
        res == HandlerResult::<State<T>, T::Result>::Continue(Err(Error::UnsupportedOperation))
    }

    fn on_response(self, response: &Vec<u8>, env: &Env) -> (res: HandlerResult<
        State<T>,
        T::Result,
    >) {
        TransferInFinish::from(self).try_complete(env)
    }

    fn on_timeout(self, env: &Env) -> (res: ContinueResult<State<T>>) {
        let state_label = self.spec.label();
        let repaired = on_timeout_repair_channel(self, state_label, env);
        Ok(
            crate::response::Response {
                response: repaired.response,
                next_state: State::TransferInInit(repaired.next_state),
            },
        )
    }

    fn on_time_alarm(self, env: &Env) -> (res: HandlerResult<State<T>, T::Result>) {
        HandlerResult::Continue(Err(Error::UnsupportedOperation))
    }
}

} // verus!
