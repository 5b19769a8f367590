//! The step that waits for transferred funds to arrive in the local account.
use vstd::prelude::*;
use crate::batch::{Msg, Response as MessageResponse};
use crate::coin::CoinDTO;
use crate::env::Env;
use crate::error::Error;
use crate::out_local::State;
use crate::response::{setup_alarm, ContinueResult, Handler, HandlerResult, Response};
use crate::swap_task::SwapTask;
use crate::timestamp::Timestamp;
use crate::transfer_in_init::TransferInInit;

verus! {

/// Nanoseconds between two looks at the local account.
pub const POLLING_INTERVAL: u64 = 5_000_000_000;

/// The transfer of `amount_in` was acknowledged; its arrival in the local
/// account is awaited.
#[derive(PartialEq, Eq, Debug)]
pub struct TransferInFinish<SwapTask> {
    pub spec: SwapTask,
    pub amount_in: CoinDTO,
}

impl<T: SwapTask> TransferInFinish<T> {
    /// The step that follows the acknowledged transfer `init`.
    pub fn from(init: TransferInInit<T>) -> (res: Self)
        ensures
            res == (TransferInFinish { spec: init.spec, amount_in: init.amount_in }),
    {
        TransferInFinish { spec: init.spec, amount_in: init.amount_in }
    }

    /// Whether the local account holds what was transferred.
    pub open spec fn spec_received(self, env: Env) -> bool {
        env.spec_balance(self.amount_in.currency) >= self.amount_in.amount
    }

    /// Whether `res` is what a look at the local account yields: if the
    /// funds are there the task finishes with them; if not, the step stays
    /// and asks to be woken up one polling interval later.
    pub open spec fn spec_try_complete(self, env: Env, res: HandlerResult<State<T>, T::Result>)
        -> bool {
        if self.spec_received(env) {
            res == HandlerResult::<State<T>, T::Result>::Finished(
                self.spec.spec_finish(self.amount_in, env.now),
            )
        } else {
            match res {
                HandlerResult::Continue(Ok(response)) => {
                    &&& response.next_state == State::TransferInFinish(self)
                    &&& response.response.events@ == Seq::<crate::event::Emitter>::empty()
                    &&& response.response.messages@ == seq![
                        Msg::AddTimeAlarm {
                            time_alarms: self.spec.spec_time_alarm(),
                            time: Timestamp { nanos: (env.now.nanos + POLLING_INTERVAL) as u64 },
                        },
                    ]
                },
                _ => false,
            }
        }
    }

    /// Looks whether the funds have arrived.
    pub fn try_complete(self, env: &Env) -> (res: HandlerResult<State<T>, T::Result>)
        requires
            env.inv(),
        ensures
            self.spec_try_complete(*env, res),
    {
        if env.balance(self.amount_in.currency) >= self.amount_in.amount {
            let amount_in: CoinDTO = self.amount_in;
            HandlerResult::Finished(self.spec.finish(amount_in, env.now))
        } else {
            let batch = setup_alarm(self.spec.time_alarm(), env.now.plus_nanos(POLLING_INTERVAL));
            HandlerResult::Continue(
                Ok(
                    Response {
                        response: MessageResponse::messages_only(batch),
                        next_state: State::TransferInFinish(self),
                    },
                ),
            )
        }
    }
}

impl<T: SwapTask> Handler for TransferInFinish<T> {
    type Response = State<T>;

    type SwapResult = T::Result;

    open spec fn handler_inv(&self) -> bool {
        true
    }

    open spec fn spec_on_response(
        self,
        response: Seq<u8>,
        env: Env,
        res: HandlerResult<State<T>, T::Result>,
    ) -> bool {
        res == HandlerResult::<State<T>, T::Result>::Continue(Err(Error::UnsupportedOperation))
    }

    open spec fn spec_on_timeout(self, env: Env, res: ContinueResult<State<T>>) -> bool {
        res == Err::<Response<State<T>>, Error>(Error::UnsupportedOperation)
    }

    open spec fn spec_on_time_alarm(self, env: Env, res: HandlerResult<State<T>, T::Result>)
        -> bool {
        self.spec_try_complete(env, res)
    }

    fn on_response(self, response: &Vec<u8>, env: &Env) -> (res: HandlerResult<
        State<T>,
        T::Result,
    >) {
        HandlerResult::Continue(Err(Error::UnsupportedOperation))
    }

    fn on_timeout(self, env: &Env) -> (res: ContinueResult<State<T>>) {
        Err(Error::UnsupportedOperation)
    }

    fn on_time_alarm(self, env: &Env) -> (res: HandlerResult<State<T>, T::Result>) {
        self.try_complete(env)
    }
}

} // verus!
