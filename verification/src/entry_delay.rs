//! A step that puts one wake-up between the decision to enter a state and
//! the entering itself, so that the state is never entered within the
//! invocation that made it.
use vstd::prelude::*;
use crate::address::Addr;
use crate::batch::{Batch, Msg, Response as MessageResponse};
use crate::env::Env;
use crate::error::Error;
use crate::event::Emitter;
use crate::response::{
    setup_alarm, ContinueResult, Contract, Enterable as EnterableT, Handler, HandlerResult,
    Response,
};
use crate::timestamp::Timestamp;

verus! {

/// Nanoseconds from now to the wake-up that enters the state.
pub const RIGHT_AFTER_NOW: u64 = 1;

/// Holds the state `enterable` until the alarm service at `time_alarms`
/// wakes the contract up.
#[derive(PartialEq, Eq, Debug)]
pub struct EntryDelay<Enterable> {
    pub enterable: Enterable,
    pub time_alarms: Addr,
}

impl<Enterable> EntryDelay<Enterable> {
    /// The delayed entry of `enterable`.
    pub fn new(enterable: Enterable, time_alarms: Addr) -> (res: Self)
        ensures
            res == (EntryDelay { enterable, time_alarms }),
    {
        EntryDelay { enterable, time_alarms }
    }
}

impl<Enterable: EnterableT> EntryDelay<Enterable> {
    /// Whether `res` is what the wake-up yields: the held state is entered
    /// at the time of the wake-up, its instructions are passed on and the
    /// machine goes on with it; if it cannot be entered, its error is
    /// passed on.
    pub open spec fn spec_enter_inner(self, env: Env, res: ContinueResult<Enterable>) -> bool {
        match res {
            Ok(response) => {
                &&& response.next_state == self.enterable
                &&& response.response.events@ == Seq::<Emitter>::empty()
                &&& self.enterable.spec_enter(env.now, Ok(response.response.messages))
            },
            Err(error) => self.enterable.spec_enter(env.now, Err(error)),
        }
    }

    /// Enters the held state now that the wake-up has come.
    pub fn enter_inner(self, env: &Env) -> (res: ContinueResult<Enterable>)
        requires
            self.enterable.enterable_inv(),
            env.inv(),
        ensures
            self.spec_enter_inner(*env, res),
    {
        match self.enterable.enter(env.now) {
            Err(error) => Err(error),
            Ok(batch) => Ok(
                Response {
                    response: MessageResponse::messages_only(batch),
                    next_state: self.enterable,
                },
            ),
        }
    }
}

impl<Enterable> EnterableT for EntryDelay<Enterable> {
    open spec fn enterable_inv(&self) -> bool {
        true
    }

    /// Entering the delay does not enter the held state: it asks for a
    /// wake-up one nanosecond after `now` and nothing else.
    open spec fn spec_enter(&self, now: Timestamp, res: Result<Batch, Error>) -> bool {
        &&& res.is_ok()
        &&& res.unwrap()@ == seq![
            Msg::AddTimeAlarm {
                time_alarms: self.time_alarms,
                time: Timestamp { nanos: (now.nanos + RIGHT_AFTER_NOW) as u64 },
            },
        ]
    }

    fn enter(&self, now: Timestamp) -> (res: Result<Batch, Error>) {
        Ok(setup_alarm(&self.time_alarms, now.plus_nanos(RIGHT_AFTER_NOW)))
    }
}

impl<Enterable: EnterableT + Handler> Handler for EntryDelay<Enterable> {
    type Response = Enterable;

    type SwapResult = Enterable::SwapResult;

    open spec fn handler_inv(&self) -> bool {
        self.enterable.enterable_inv()
    }

    open spec fn spec_on_response(
        self,
        response: Seq<u8>,
        env: Env,
        res: HandlerResult<Enterable, Enterable::SwapResult>,
    ) -> bool {
        res == HandlerResult::<Enterable, Enterable::SwapResult>::Continue(
            Err(Error::UnsupportedOperation),
        )
    }

    open spec fn spec_on_timeout(self, env: Env, res: ContinueResult<Enterable>) -> bool {
        res == Err::<Response<Enterable>, Error>(Error::UnsupportedOperation)
    }

    open spec fn spec_on_time_alarm(
        self,
        env: Env,
        res: HandlerResult<Enterable, Enterable::SwapResult>,
    ) -> bool {
        match res {
            HandlerResult::Continue(entered) => self.spec_enter_inner(env, entered),
            HandlerResult::Finished(_) => false,
        }
    }

    fn on_response(self, response: &Vec<u8>, env: &Env) -> (res: HandlerResult<
        Enterable,
        Enterable::SwapResult,
    >) {
        HandlerResult::Continue(Err(Error::UnsupportedOperation))
    }

    fn on_timeout(self, env: &Env) -> (res: ContinueResult<Enterable>) {
        Err(Error::UnsupportedOperation)
    }

    fn on_time_alarm(self, env: &Env) -> (res: HandlerResult<Enterable, Enterable::SwapResult>) {
        HandlerResult::Continue(self.enter_inner(env))
    }
}

impl<Connectee: Contract> Contract for EntryDelay<Connectee> {
    type StateResponse = Connectee::StateResponse;

    /// The delay reports what the held state reports.
    open spec fn spec_state(self, now: Timestamp) -> Connectee::StateResponse {
        self.enterable.spec_state(now)
    }

    fn state(self, now: Timestamp) -> (res: Connectee::StateResponse) {
        self.enterable.state(now)
    }
}

} // verus!
