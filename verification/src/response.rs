//! What a state of the cross-chain protocol can do, and what doing it
//! yields: instructions for the runtime and the state to go on with.
use vstd::prelude::*;
use crate::address::Addr;
use crate::batch::{Batch, Msg, Response as MessageResponse};
use crate::connection::ConnectionParams;
use crate::env::Env;
use crate::error::Error;
use crate::timestamp::Timestamp;

verus! {

/// Instructions for the runtime and the state the machine goes on with.
#[derive(PartialEq, Eq, Debug)]
pub struct Response<S> {
    pub response: MessageResponse,
    pub next_state: S,
}

impl<S> Response<S> {
    /// `response` together with the state `next_state`.
    pub fn from(response: MessageResponse, next_state: S) -> (res: Self)
        ensures
            res.response == response,
            res.next_state == next_state,
    {
        Response { response, next_state }
    }
}

/// The outcome of a step that keeps the machine running.
pub type ContinueResult<S> = Result<Response<S>, Error>;

/// The outcome of a step: the machine goes on, or the task is finished and
/// yields its result.
#[derive(PartialEq, Eq, Debug)]
pub enum HandlerResult<S, R> {
    Continue(ContinueResult<S>),
    Finished(R),
}

/// A state that is entered by sending instructions.
pub trait Enterable {
    /// What holds of a state that may be entered.
    spec fn enterable_inv(&self) -> bool;

    /// Whether `res` is what entering the state at `now` yields: the
    /// instructions to send, or why the state cannot be entered.
    spec fn spec_enter(&self, now: Timestamp, res: Result<Batch, Error>) -> bool;

    /// Enters the state at `now`.
    fn enter(&self, now: Timestamp) -> (res: Result<Batch, Error>)
        requires
            self.enterable_inv(),
            now.spec_allows_lookahead(),
        ensures
            self.spec_enter(now, res),
    ;
}

/// A state that knows how the remote venue is reached.
pub trait DexConnectable {
    /// The connection to the remote venue.
    spec fn spec_dex(&self) -> ConnectionParams;

    /// The connection to the remote venue.
    fn dex(&self) -> (res: &ConnectionParams)
        ensures
            *res == self.spec_dex(),
    ;
}

/// A state that can ask for a wake-up.
pub trait TimeAlarm {
    /// The alarm service the state uses.
    spec fn spec_time_alarms(&self) -> Addr;

    /// The instruction that asks for a wake-up at `forr`.
    fn setup_alarm(&self, forr: Timestamp) -> (res: Batch)
        ensures
            res@ == seq![Msg::AddTimeAlarm { time_alarms: self.spec_time_alarms(), time: forr }],
    ;
}

/// A state that can report on itself.
pub trait Contract: Sized {
    /// What the state reports.
    type StateResponse;

    /// What the state reports at `now`.
    spec fn spec_state(self, now: Timestamp) -> Self::StateResponse;

    /// Reports on the state at `now`.
    fn state(self, now: Timestamp) -> (res: Self::StateResponse)
        ensures
            res == self.spec_state(now),
    ;
}

/// A state that awaits the outcome of a remote operation.
pub trait Handler: Sized {
    /// The state the machine goes on with.
    type Response;

    /// What a finished task yields.
    type SwapResult;

    /// What holds of a state that may be resumed.
    spec fn handler_inv(&self) -> bool;

    /// Whether `res` is what the reply `response` makes of the state.
    spec fn spec_on_response(
        self,
        response: Seq<u8>,
        env: Env,
        res: HandlerResult<Self::Response, Self::SwapResult>,
    ) -> bool;

    /// Whether `res` is what a timeout makes of the state.
    spec fn spec_on_timeout(self, env: Env, res: ContinueResult<Self::Response>) -> bool;

    /// Whether `res` is what a wake-up makes of the state.
    spec fn spec_on_time_alarm(
        self,
        env: Env,
        res: HandlerResult<Self::Response, Self::SwapResult>,
    ) -> bool;

    /// Resumes the state with the reply to its remote operation.
    fn on_response(self, response: &Vec<u8>, env: &Env) -> (res: HandlerResult<
        Self::Response,
        Self::SwapResult,
    >)
        requires
            self.handler_inv(),
            env.inv(),
        ensures
            self.spec_on_response(response@, *env, res),
    ;

    /// Resumes the state after its remote operation timed out.
    fn on_timeout(self, env: &Env) -> (res: ContinueResult<Self::Response>)
        requires
            self.handler_inv(),
            env.inv(),
        ensures
            self.spec_on_timeout(*env, res),
    ;

    /// Resumes the state with a wake-up.
    fn on_time_alarm(self, env: &Env) -> (res: HandlerResult<Self::Response, Self::SwapResult>)
        requires
            self.handler_inv(),
            env.inv(),
        ensures
            self.spec_on_time_alarm(*env, res),
    ;
}

/// The instruction that asks the alarm service at `time_alarms` for a
/// wake-up at `time`.
pub fn setup_alarm(time_alarms: &Addr, time: Timestamp) -> (res: Batch)
    ensures
        res@ == seq![Msg::AddTimeAlarm { time_alarms: *time_alarms, time }],
{
    let mut batch: Batch = Batch::default();
    batch.schedule_execute_no_reply(Msg::AddTimeAlarm { time_alarms: time_alarms.clone(), time });
    batch
}

} // verus!
