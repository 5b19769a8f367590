//! Guaranteed delivery of the outcome of a remote operation.
//!
//! The outcome is captured together with the handler that awaits it. One
//! attempt to deliver is made at once, by a call of the contract to itself.
//! If that attempt fails, the runtime undoes it and says so; a wake-up is
//! then asked for, and the delivery is made when it comes.
use vstd::prelude::*;
use std::marker::PhantomData;
use crate::address::Addr;
use crate::batch::{Batch, Msg, Response as MessageResponse};
use crate::env::Env;
use crate::error::Error;
use crate::event::{Attribute, Emitter, EventKind};
use crate::response::{ContinueResult, Contract, Handler, HandlerResult, Response, TimeAlarm};
use crate::timestamp::Timestamp;

verus! {

/// The number by which the runtime's report of a failed delivery is known.
pub const REPLY_ID: u64 = 12345678901;

/// Nanoseconds from the report of a failed delivery to the wake-up that
/// makes the next one.
pub const RIGHT_AFTER_NOW: u64 = 1;

/// What the event of a rescheduled delivery says is being delivered.
pub const NEXT_DELIVERY_WHAT: &'static str = "dex-response";

/// The runtime's report on an instruction that asked for one.
#[derive(Clone, Copy, PartialEq, Eq, Structural, Debug)]
pub struct Reply {
    pub id: u64,
    pub failed: bool,
}

/// How an outcome of type `R` is handed to a handler of type `H`.
pub trait DeliveryAdapter<H: Handler, R> {
    /// Whether `res` is what handing `response` to `handler` yields.
    spec fn spec_deliver(
        handler: H,
        response: R,
        env: Env,
        res: HandlerResult<H::Response, H::SwapResult>,
    ) -> bool;

    /// Hands `response` to `handler`.
    fn deliver(handler: H, response: R, env: &Env) -> (res: HandlerResult<
        H::Response,
        H::SwapResult,
    >)
        requires
            handler.handler_inv(),
            env.inv(),
        ensures
            Self::spec_deliver(handler, response, *env, res),
    ;
}

/// Hands the reply to a remote transaction to the handler that awaits it.
#[derive(Clone, Copy, PartialEq, Eq, Debug)]
pub struct ResponseDeliveryAdapter;

impl<H: Handler> DeliveryAdapter<H, Vec<u8>> for ResponseDeliveryAdapter {
    open spec fn spec_deliver(
        handler: H,
        response: Vec<u8>,
        env: Env,
        res: HandlerResult<H::Response, H::SwapResult>,
    ) -> bool {
        handler.spec_on_response(response@, env, res)
    }

    fn deliver(handler: H, response: Vec<u8>, env: &Env) -> (res: HandlerResult<
        H::Response,
        H::SwapResult,
    >) {
        handler.on_response(&response, env)
    }
}

/// A captured outcome and the handler that has not seen it yet.
#[derive(PartialEq, Eq, Debug)]
pub struct ResponseDeliveryImpl<H, R, Delivery> {
    pub handler: H,
    pub response: R,
    pub _delivery_adapter: PhantomData<Delivery>,
}

/// The delivery of the reply to a remote transaction.
pub type ResponseDelivery<H> = ResponseDeliveryImpl<H, Vec<u8>, ResponseDeliveryAdapter>;

impl<H, R, Delivery> ResponseDeliveryImpl<H, R, Delivery> {
    /// Captures `response` for `handler`.
    pub fn new(handler: H, response: R) -> (res: Self)
        ensures
            res.handler == handler,
            res.response == response,
    {
        ResponseDeliveryImpl { handler, response, _delivery_adapter: PhantomData }
    }

    /// The instruction that makes the one attempt to deliver at once: the
    /// contract at `myself` calls itself, and the runtime reports back only
    /// if the call fails.
    pub fn enter(&self, myself: Addr) -> (res: Result<Batch, Error>)
        ensures
            res.is_ok(),
            res.unwrap()@ == seq![
                Msg::ForwardToInner { contract: myself, reply_on_error_id: REPLY_ID },
            ],
    {
        let mut resp: Batch = Batch::default();
        resp.schedule_execute_no_reply(
            Msg::ForwardToInner { contract: myself, reply_on_error_id: REPLY_ID },
        );
        Ok(resp)
    }

    /// The event that tells of a rescheduled delivery.
    pub fn emit_setup_next_delivery(&self) -> (res: Emitter)
        ensures
            res.kind == EventKind::NextDelivery,
            res.attributes@ == seq![Attribute::What(NEXT_DELIVERY_WHAT)],
    {
        let emitter = Emitter::of_type(EventKind::NextDelivery).emit(
            Attribute::What(NEXT_DELIVERY_WHAT),
        );
        assert(emitter.attributes@ =~= seq![Attribute::What(NEXT_DELIVERY_WHAT)]);
        emitter
    }
}

impl<H: Handler + TimeAlarm, R, Delivery: DeliveryAdapter<H, R>> ResponseDeliveryImpl<
    H,
    R,
    Delivery,
> {
    /// The captured outcome may be delivered.
    pub open spec fn inv(&self) -> bool {
        self.handler.handler_inv()
    }

    /// Whether `res` is what the report of a failed delivery at the time of
    /// `env` yields: a wake-up one nanosecond later is asked for, an event
    /// tells of it, and the delivery stays pending as it was.
    pub open spec fn spec_reply(self, env: Env, res: ContinueResult<Self>) -> bool {
        &&& res.is_ok()
        &&& res.unwrap().next_state == self
        &&& res.unwrap().response.messages@ == seq![
            Msg::AddTimeAlarm {
                time_alarms: self.handler.spec_time_alarms(),
                time: Timestamp { nanos: (env.now.nanos + RIGHT_AFTER_NOW) as u64 },
            },
        ]
        &&& res.unwrap().response.events@.len() == 1
        &&& res.unwrap().response.events@[0].kind == EventKind::NextDelivery
        &&& res.unwrap().response.events@[0].attributes@ == seq![
            Attribute::What(NEXT_DELIVERY_WHAT),
        ]
    }

    /// Whether `res` is what delivering yields: the handler is handed the
    /// captured outcome, and what it makes of it is the result.
    pub open spec fn spec_deliver(
        self,
        env: Env,
        res: HandlerResult<H::Response, H::SwapResult>,
    ) -> bool {
        Delivery::spec_deliver(self.handler, self.response, env, res)
    }

    fn do_deliver(self, env: &Env) -> (res: HandlerResult<H::Response, H::SwapResult>)
        requires
            self.inv(),
            env.inv(),
        ensures
            self.spec_deliver(*env, res),
    {
        Delivery::deliver(self.handler, self.response, env)
    }

    fn setup_next_delivery(self, now: Timestamp) -> (res: ContinueResult<Self>)
        requires
            now.spec_allows_lookahead(),
        ensures
            res.is_ok(),
            res.unwrap().next_state == self,
            res.unwrap().response.messages@ == seq![
                Msg::AddTimeAlarm {
                    time_alarms: self.handler.spec_time_alarms(),
                    time: Timestamp { nanos: (now.nanos + RIGHT_AFTER_NOW) as u64 },
                },
            ],
            res.unwrap().response.events@.len() == 1,
            res.unwrap().response.events@[0].kind == EventKind::NextDelivery,
            res.unwrap().response.events@[0].attributes@ == seq![
                Attribute::What(NEXT_DELIVERY_WHAT),
            ],
    {
        let msgs: Batch = self.handler.setup_alarm(now.plus_nanos(RIGHT_AFTER_NOW));
        let emitter: Emitter = self.emit_setup_next_delivery();
        Ok(Response::from(MessageResponse::messages_with_events(msgs, emitter), self))
    }

    /// Makes the attempt to deliver at once. If it fails the runtime undoes
    /// it and reports the failure.
    pub fn on_inner(self, env: &Env) -> (res: HandlerResult<H::Response, H::SwapResult>)
        requires
            self.inv(),
            env.inv(),
        ensures
            self.spec_deliver(*env, res),
    {
        self.do_deliver(env)
    }

    /// Takes the runtime's report that the attempt to deliver at once
    /// failed, and schedules the next delivery.
    pub fn reply(self, env: &Env, msg: Reply) -> (res: ContinueResult<Self>)
        requires
            env.inv(),
            msg.id == REPLY_ID,
            msg.failed,
        ensures
            self.spec_reply(*env, res),
    {
        self.setup_next_delivery(env.now)
    }

    /// Delivers now that the wake-up has come. The alarm service delivers
    /// reliably, so a failure of the handler is passed on and not retried
    /// here.
    pub fn on_time_alarm(self, env: &Env) -> (res: HandlerResult<H::Response, H::SwapResult>)
        requires
            self.inv(),
            env.inv(),
        ensures
            self.spec_deliver(*env, res),
    {
        self.do_deliver(env)
    }
}

impl<H: Contract, R, Delivery> Contract for ResponseDeliveryImpl<H, R, Delivery> {
    type StateResponse = H::StateResponse;

    /// A pending delivery reports what its handler reports.
    open spec fn spec_state(self, now: Timestamp) -> H::StateResponse {
        self.handler.spec_state(now)
    }

    fn state(self, now: Timestamp) -> (res: H::StateResponse) {
        self.handler.state(now)
    }
}

/// However often the attempt to deliver at once fails, the delivery that
/// the wake-up makes hands the handler the outcome that was captured:
/// every report of a failure leaves the pending delivery as it was, with one
/// wake-up asked for, and the delivery itself consumes it. The handler
/// therefore sees the outcome once: not before the wake-up, since a failed
/// attempt is undone, and not after it, since nothing is pending then.
pub proof fn lemma_delivered_exactly_once<
    H: Handler + TimeAlarm,
    R,
    Delivery: DeliveryAdapter<H, R>,
>(
    pending: ResponseDeliveryImpl<H, R, Delivery>,
    failures: Seq<(Env, Response<ResponseDeliveryImpl<H, R, Delivery>>)>,
    env: Env,
    res: HandlerResult<H::Response, H::SwapResult>,
)
    requires
        forall|i: int|
            0 <= i < failures.len() ==> (#[trigger] spec_pending_before(
                pending,
                failures,
                i,
            )).spec_reply(failures[i].0, Ok(failures[i].1)),
        spec_pending_before(pending, failures, failures.len() as int).spec_deliver(env, res),
    ensures
        forall|i: int|
            0 <= i <= failures.len() ==> #[trigger] spec_pending_before(pending, failures, i)
                == pending,
        forall|i: int|
            0 <= i < failures.len() ==> (#[trigger] failures[i]).1.response.messages@.len() == 1,
        Delivery::spec_deliver(pending.handler, pending.response, env, res),
{
    assert forall|i: int| 0 <= i <= failures.len() implies #[trigger] spec_pending_before(
        pending,
        failures,
        i,
    ) == pending by {
        lemma_pending_unchanged(pending, failures, i);
    }
    assert forall|i: int| 0 <= i < failures.len() implies (#[trigger] failures[i]).1.response.messages@.len()
        == 1 by {
        assert(spec_pending_before(pending, failures, i).spec_reply(
            failures[i].0,
            Ok(failures[i].1),
        ));
    }
}

/// The delivery that is pending before the `count`-th report of a failure:
/// the one the report before it left.
pub open spec fn spec_pending_before<H, R, Delivery>(
    pending: ResponseDeliveryImpl<H, R, Delivery>,
    failures: Seq<(Env, Response<ResponseDeliveryImpl<H, R, Delivery>>)>,
    count: int,
) -> ResponseDeliveryImpl<H, R, Delivery> {
    if count <= 0 || count > failures.len() {
        pending
    } else {
        failures[count - 1].1.next_state
    }
}

/// Reports of failures leave the pending delivery as it was.
pub proof fn lemma_pending_unchanged<
    H: Handler + TimeAlarm,
    R,
    Delivery: DeliveryAdapter<H, R>,
>(
    pending: ResponseDeliveryImpl<H, R, Delivery>,
    failures: Seq<(Env, Response<ResponseDeliveryImpl<H, R, Delivery>>)>,
    count: int,
)
    requires
        0 <= count <= failures.len(),
        forall|i: int|
            0 <= i < failures.len() ==> (#[trigger] spec_pending_before(
                pending,
                failures,
                i,
            )).spec_reply(failures[i].0, Ok(failures[i].1)),
    ensures
        spec_pending_before(pending, failures, count) == pending,
    decreases count,
{
    if count > 0 {
        lemma_pending_unchanged(pending, failures, count - 1);
        assert(spec_pending_before(pending, failures, count - 1).spec_reply(
            failures[count - 1].0,
            Ok(failures[count - 1].1),
        ));
    }
}

} // verus!
