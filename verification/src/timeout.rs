//! What the protocol does when a remote operation times out: it has the
//! channel repaired and stays in the step it was in.
use vstd::prelude::*;
use crate::batch::{Msg, Response as MessageResponse};
use crate::env::Env;
use crate::event::{Attribute, Emitter, EventKind, Type};
use crate::ica::{register_account, ICA_ACCOUNT_ID};
use crate::error::Error;
use crate::response::{ContinueResult, DexConnectable, Enterable, Response};

verus! {

/// What a timeout event says is being done.
pub const TIMEOUT_WHAT: &'static str = "timeout";

/// Whether `response` is the answer to a timeout of the step `state_label`
/// of the contract of `env` that reaches the venue over `connection_id`: the
/// instruction that opens the account's channel again, and one event that
/// names the step and the contract.
pub open spec fn is_channel_repair(
    response: MessageResponse,
    connection_id: String,
    state_label: Type,
    env: Env,
) -> bool {
    &&& response.messages@ == seq![
        Msg::RegisterInterchainAccount { connection_id, interchain_account_id: ICA_ACCOUNT_ID },
    ]
    &&& response.events@.len() == 1
    &&& response.events@[0].kind == EventKind::Lease(state_label)
    &&& response.events@[0].attributes@ == seq![
        Attribute::Id(env.contract),
        Attribute::What(TIMEOUT_WHAT),
    ]
}

/// Answers a timeout of the step `state_label`: the channel is repaired and
/// the machine stays in `current_state`, so that the step is taken again
/// once the channel is open. Nothing bounds how often this happens.
pub fn on_timeout_repair_channel<S: DexConnectable>(
    current_state: S,
    state_label: Type,
    env: &Env,
) -> (res: Response<S>)
    ensures
        res.next_state == current_state,
        is_channel_repair(res.response, current_state.spec_dex().connection_id, state_label, *env),
{
    let emitter: Emitter = Emitter::of_type(EventKind::Lease(state_label)).emit(
        Attribute::Id(env.contract.clone()),
    ).emit(Attribute::What(TIMEOUT_WHAT));
    assert(emitter.attributes@ =~= seq![
        Attribute::Id(env.contract),
        Attribute::What(TIMEOUT_WHAT),
    ]);
    let batch = register_account(current_state.dex().connection_id.clone());
    Response::from(MessageResponse::messages_with_events(batch, emitter), current_state)
}

/// Whether `res` is what the repair of the channel yields for the step
/// `current_state`: the step is entered again at the time of `env`, its
/// instructions are passed on and the machine stays in it; if it cannot be
/// entered its error is passed on.
pub open spec fn spec_on_channel_repaired<S: Enterable>(
    current_state: S,
    env: Env,
    res: ContinueResult<S>,
) -> bool {
    match res {
        Ok(response) => {
            &&& response.next_state == current_state
            &&& response.response.events@ == Seq::<Emitter>::empty()
            &&& current_state.spec_enter(env.now, Ok(response.response.messages))
        },
        Err(error) => current_state.spec_enter(env.now, Err(error)),
    }
}

/// Takes the step `current_state` again now that its channel is repaired.
pub fn on_channel_repaired<S: Enterable>(current_state: S, env: &Env) -> (res: ContinueResult<S>)
    requires
        current_state.enterable_inv(),
        env.inv(),
    ensures
        spec_on_channel_repaired(current_state, *env, res),
{
    match current_state.enter(env.now) {
        Err(error) => Err(error),
        Ok(batch) => Ok(
            Response { response: MessageResponse::messages_only(batch), next_state: current_state },
        ),
    }
}

} // verus!
