//! The step that exchanges the coins of a task for its output currency:
//! one swap per coin, all in one remote transaction, and one reply that
//! holds one result per swap, in the order of the swaps.
use vstd::prelude::*;
use std::marker::PhantomData;
use crate::batch::{Batch, Msg};
use crate::coin::{from_amount_ticker, CoinDTO, CoinError, Currency, Group};
use crate::connection::{is_submission, Account, ConnectionParams};
use crate::env::Env;
use crate::error::Error;
use crate::ica::HostAccount;
use crate::msg_data::{
    decode_msg_responses, exact_amount_in_resp, msg_data_views, spec_msg_responses,
    spec_swap_amount_out, DecodeError, MsgData, MsgDataView,
};
use crate::address::Addr;
use crate::response::{
    setup_alarm, ContinueResult, Contract, DexConnectable, Enterable, Handler, HandlerResult,
    Response, TimeAlarm,
};
use crate::swap_task::{spec_on_coins, CoinVisitor, IterNext, IterState, SwapTask as SwapTaskT};
use crate::timeout::{is_channel_repair, on_timeout_repair_channel};
use crate::timestamp::Timestamp;
use crate::transfer_in_init::{is_transfer_in, TransferInInit};
use crate::trx::{RemoteMsg, Transaction};

verus! {

/// The swap of the coins of `spec` has been asked for; its reply is awaited.
/// `SEnum` marks the state machine the step belongs to: it tells what
/// follows the swap.
#[derive(PartialEq, Eq, Debug)]
pub struct SwapExactIn<SwapTask, SEnum> {
    pub spec: SwapTask,
    pub _state_enum: PhantomData<SEnum>,
}

/// The swaps of `coins` for `out_currency` by the remote account `sender`,
/// one per coin, in order.
pub open spec fn spec_swap_msgs(coins: Seq<CoinDTO>, sender: HostAccount, out_currency: Currency)
    -> Seq<RemoteMsg> {
    Seq::new(
        coins.len(),
        |i: int| RemoteMsg::SwapExactAmountIn { sender, token_in: coins[i], out_currency },
    )
}

/// The sum of the amounts that the results from `index` on report for the
/// coins from `index` on, added to `acc`. Each coin takes the next result;
/// a missing or unreadable result and a sum above 128 bits are errors.
pub open spec fn spec_accumulate(results: Seq<MsgDataView>, count: int, index: int, acc: u128)
    -> Result<u128, Error>
    decreases count - index,
{
    if index >= count {
        Ok(acc)
    } else if index < 0 || index >= results.len() {
        Err(Error::Decode(DecodeError::MissingResponse))
    } else {
        match spec_swap_amount_out(results[index]) {
            Err(error) => Err(Error::Decode(error)),
            Ok(amount) => if acc + amount > u128::MAX {
                Err(Error::AmountOverflow)
            } else {
                spec_accumulate(results, count, index + 1, (acc + amount) as u128)
            },
        }
    }
}

/// What the reply `response` to the swaps of `count` coins comes to: the sum
/// of the amounts of its results, as a coin of `out_currency`. The reply has
/// to hold exactly one readable result per coin, and the currency has to
/// belong to `out_group`.
pub open spec fn spec_decode_response(
    count: int,
    out_currency: Currency,
    out_group: Group,
    response: Seq<u8>,
) -> Result<CoinDTO, Error> {
    match spec_msg_responses(response) {
        None => Err(Error::Decode(DecodeError::Malformed)),
        Some(results) => match spec_accumulate(results, count, 0, 0) {
            Err(error) => Err(error),
            Ok(total) => if results.len() > count {
                Err(Error::ExtraResponses)
            } else if out_group.spec_contains(out_currency) {
                Ok(CoinDTO { amount: total, currency: out_currency })
            } else {
                Err(
                    Error::Coin(
                        CoinError::UnexpectedCurrency { currency: out_currency, group: out_group },
                    ),
                )
            },
        },
    }
}

/// Builds the swaps: each coin it is shown becomes one swap message.
pub struct SwapWorker {
    pub trx: Transaction,
    pub sender: HostAccount,
    pub out_currency: Currency,
}

/// What a swap builder holds.
pub struct SwapWorkerView {
    pub msgs: Seq<RemoteMsg>,
    pub sender: HostAccount,
    pub out_currency: Currency,
}

impl View for SwapWorker {
    type V = SwapWorkerView;

    open spec fn view(&self) -> SwapWorkerView {
        SwapWorkerView {
            msgs: self.trx.msgs@,
            sender: self.sender,
            out_currency: self.out_currency,
        }
    }
}

impl CoinVisitor for SwapWorker {
    type Result = IterNext;

    type Error = Error;

    open spec fn spec_visit(state: SwapWorkerView, coin: CoinDTO) -> (
        SwapWorkerView,
        Result<IterNext, Error>,
    ) {
        (
            SwapWorkerView {
                msgs: state.msgs.push(
                    RemoteMsg::SwapExactAmountIn {
                        sender: state.sender,
                        token_in: coin,
                        out_currency: state.out_currency,
                    },
                ),
                ..state
            },
            Ok(IterNext::Continue),
        )
    }

    fn visit(&mut self, coin: &CoinDTO) -> (res: Result<IterNext, Error>) {
        self.trx.add_message(
            RemoteMsg::SwapExactAmountIn {
                sender: self.sender.clone(),
                token_in: *coin,
                out_currency: self.out_currency,
            },
        );
        Ok(IterNext::Continue)
    }
}

/// A swap builder that is shown a list of coins adds their swaps, in order,
/// and sees the list through.
pub proof fn lemma_swap_worker_builds_all(coins: Seq<CoinDTO>, state: SwapWorkerView)
    ensures
        spec_on_coins::<SwapWorker>(coins, state) == (
            SwapWorkerView {
                msgs: state.msgs + spec_swap_msgs(coins, state.sender, state.out_currency),
                ..state
            },
            Ok::<IterState, Error>(IterState::Complete),
        ),
    decreases coins.len(),
{
    if coins.len() == 0 {
        assert(state.msgs + spec_swap_msgs(coins, state.sender, state.out_currency)
            =~= state.msgs);
    } else {
        let next = SwapWorker::spec_visit(state, coins[0]).0;
        lemma_swap_worker_builds_all(coins.skip(1), next);
        assert(next.msgs + spec_swap_msgs(coins.skip(1), state.sender, state.out_currency)
            =~= state.msgs + spec_swap_msgs(coins, state.sender, state.out_currency));
    }
}

/// Reads the reply: each coin it is shown takes the next result and adds
/// the amount the result reports.
pub struct ExactInResponse {
    pub results: Vec<MsgData>,
    pub next: usize,
    pub amount: u128,
}

/// What a reply reader holds.
pub struct ExactInResponseView {
    pub results: Seq<MsgDataView>,
    pub next: int,
    pub amount: u128,
}

impl View for ExactInResponse {
    type V = ExactInResponseView;

    open spec fn view(&self) -> ExactInResponseView {
        ExactInResponseView {
            results: msg_data_views(self.results@),
            next: self.next as int,
            amount: self.amount,
        }
    }
}

impl CoinVisitor for ExactInResponse {
    type Result = IterNext;

    type Error = Error;

    open spec fn spec_visit(state: ExactInResponseView, coin: CoinDTO) -> (
        ExactInResponseView,
        Result<IterNext, Error>,
    ) {
        if state.next < 0 || state.next >= state.results.len() {
            (state, Err(Error::Decode(DecodeError::MissingResponse)))
        } else {
            match spec_swap_amount_out(state.results[state.next]) {
                Err(error) => (state, Err(Error::Decode(error))),
                Ok(amount) => if state.amount + amount > u128::MAX {
                    (state, Err(Error::AmountOverflow))
                } else {
                    (
                        ExactInResponseView {
                            results: state.results,
                            next: state.next + 1,
                            amount: (state.amount + amount) as u128,
                        },
                        Ok(IterNext::Continue),
                    )
                },
            }
        }
    }

    fn visit(&mut self, coin: &CoinDTO) -> (res: Result<IterNext, Error>) {
        if self.next >= self.results.len() {
            return Err(Error::Decode(DecodeError::MissingResponse));
        }
        let amount: u128 = match exact_amount_in_resp(&self.results[self.next]) {
            Err(error) => { return Err(Error::Decode(error)); },
            Ok(amount) => amount,
        };
        match self.amount.checked_add(amount) {
            None => Err(Error::AmountOverflow),
            Some(sum) => {
                self.amount = sum;
                self.next = self.next + 1;
                Ok(IterNext::Continue)
            },
        }
    }
}

/// A reply reader that is shown a list of coins adds up one result per coin.
pub proof fn lemma_reader_accumulates(coins: Seq<CoinDTO>, state: ExactInResponseView)
    requires
        0 <= state.next,
    ensures
        match spec_accumulate(state.results, state.next + coins.len(), state.next, state.amount) {
            Ok(total) => spec_on_coins::<ExactInResponse>(coins, state) == (
                ExactInResponseView {
                    results: state.results,
                    next: state.next + coins.len(),
                    amount: total,
                },
                Ok::<IterState, Error>(IterState::Complete),
            ),
            Err(error) => spec_on_coins::<ExactInResponse>(coins, state).1 == Err::<
                IterState,
                Error,
            >(error),
        },
    decreases coins.len(),
{
    if coins.len() > 0 {
        let (next, answer) = ExactInResponse::spec_visit(state, coins[0]);
        if answer.is_ok() {
            lemma_reader_accumulates(coins.skip(1), next);
        }
    }
}

impl<SwapTask: SwapTaskT, SEnum> SwapExactIn<SwapTask, SEnum> {
    /// The step that swaps the coins of `spec`.
    pub fn new(spec: SwapTask) -> (res: Self)
        ensures
            res.spec == spec,
    {
        SwapExactIn { spec, _state_enum: PhantomData }
    }

    /// Whether `batch` is the one instruction that submits the swaps of the
    /// task's coins, one per coin, in the declared order.
    pub open spec fn spec_is_swap(&self, batch: Seq<Msg>) -> bool {
        is_submission(
            batch,
            self.spec.spec_dex_account().dex.connection_id,
            spec_swap_msgs(
                self.spec.spec_coins(),
                self.spec.spec_dex_account().host,
                self.spec.spec_out_currency(),
            ),
        )
    }

    /// The instruction that asks for the swaps.
    pub fn enter_state(&self, now: Timestamp) -> (res: Result<Batch, Error>)
        ensures
            res.is_ok(),
            self.spec_is_swap(res.unwrap()@),
    {
        let account: &Account = self.spec.dex_account();
        let mut swapper: SwapWorker = SwapWorker {
            trx: Transaction::default(),
            sender: account.host().clone(),
            out_currency: self.spec.out_currency(),
        };
        proof {
            lemma_swap_worker_builds_all(self.spec.spec_coins(), swapper@);
            assert(Seq::<RemoteMsg>::empty() + spec_swap_msgs(
                self.spec.spec_coins(),
                account.host,
                self.spec.spec_out_currency(),
            ) =~= spec_swap_msgs(
                self.spec.spec_coins(),
                account.host,
                self.spec.spec_out_currency(),
            ));
        }
        match self.spec.on_coins(&mut swapper) {
            Err(error) => Err(error),
            Ok(_) => Ok(account.submit(swapper.trx)),
        }
    }

    /// Reads the reply to the swaps and returns what they gave in all.
    pub fn decode_response(&self, resp: &Vec<u8>) -> (res: Result<CoinDTO, Error>)
        requires
            self.spec.wf(),
        ensures
            res == spec_decode_response(
                self.spec.spec_coins().len() as int,
                self.spec.spec_out_currency(),
                self.spec.spec_out_group(),
                resp@,
            ),
    {
        let results: Vec<MsgData> = match decode_msg_responses(resp) {
            Err(error) => { return Err(Error::Decode(error)); },
            Ok(results) => results,
        };
        let mut reader: ExactInResponse = ExactInResponse { results, next: 0, amount: 0 };
        proof {
            lemma_reader_accumulates(self.spec.spec_coins(), reader@);
        }
        match self.spec.on_coins(&mut reader) {
            Err(error) => { return Err(error); },
            Ok(_) => {},
        }
        if reader.next < reader.results.len() {
            return Err(Error::ExtraResponses);
        }
        match from_amount_ticker(reader.amount, self.spec.out_currency(), self.spec.out_group()) {
            Ok(coin) => Ok(coin),
            Err(error) => Err(Error::Coin(error)),
        }
    }
}

impl<SwapTask: SwapTaskT, SEnum> Enterable for SwapExactIn<SwapTask, SEnum> {
    open spec fn enterable_inv(&self) -> bool {
        true
    }

    open spec fn spec_enter(&self, now: Timestamp, res: Result<Batch, Error>) -> bool {
        &&& res.is_ok()
        &&& self.spec_is_swap(res.unwrap()@)
    }

    fn enter(&self, now: Timestamp) -> (res: Result<Batch, Error>) {
        self.enter_state(now)
    }
}

impl<SwapTask: SwapTaskT + Contract, SEnum> Contract for SwapExactIn<SwapTask, SEnum> {
    type StateResponse = <SwapTask as Contract>::StateResponse;

    /// The step reports what its task reports.
    open spec fn spec_state(self, now: Timestamp) -> <SwapTask as Contract>::StateResponse {
        self.spec.spec_state(now)
    }

    fn state(self, now: Timestamp) -> (res: <SwapTask as Contract>::StateResponse) {
        self.spec.state(now)
    }
}

impl<SwapTask: SwapTaskT, SEnum> TimeAlarm for SwapExactIn<SwapTask, SEnum> {
    open spec fn spec_time_alarms(&self) -> Addr {
        self.spec.spec_time_alarm()
    }

    fn setup_alarm(&self, forr: Timestamp) -> (res: Batch) {
        setup_alarm(self.spec.time_alarm(), forr)
    }
}

impl<SwapTask: SwapTaskT, SEnum> DexConnectable for SwapExactIn<SwapTask, SEnum> {
    open spec fn spec_dex(&self) -> ConnectionParams {
        self.spec.spec_dex_account().dex
    }

    fn dex(&self) -> (res: &ConnectionParams) {
        self.spec.dex_account().dex()
    }
}

impl<SwapTask: SwapTaskT> Handler for SwapExactIn<SwapTask, crate::out_local::Local> {
    type Response = crate::out_local::State<SwapTask>;

    type SwapResult = SwapTask::Result;

    open spec fn handler_inv(&self) -> bool {
        self.spec.wf()
    }

    /// A reply that cannot be read fails the step. What a readable reply
    /// reports is transferred to the local network next.
    open spec fn spec_on_response(
        self,
        response: Seq<u8>,
        env: Env,
        res: HandlerResult<crate::out_local::State<SwapTask>, SwapTask::Result>,
    ) -> bool {
        match spec_decode_response(
            self.spec.spec_coins().len() as int,
            self.spec.spec_out_currency(),
            self.spec.spec_out_group(),
            response,
        ) {
            Err(error) => res == HandlerResult::<
                crate::out_local::State<SwapTask>,
                SwapTask::Result,
            >::Continue(Err(error)),
            Ok(amount_out) => match res {
                HandlerResult::Continue(Ok(next)) => {
                    &&& next.next_state == crate::out_local::State::TransferInInit(
                        TransferInInit { spec: self.spec, amount_in: amount_out },
                    )
                    &&& next.response.events@ == Seq::<crate::event::Emitter>::empty()
                    &&& is_transfer_in(
                        next.response.messages@,
                        self.spec.spec_dex_account(),
                        amount_out,
                        env.now,
                    )
                },
                _ => false,
            },
        }
    }

    open spec fn spec_on_timeout(
        self,
        env: Env,
        res: ContinueResult<crate::out_local::State<SwapTask>>,
    ) -> bool {
        &&& res.is_ok()
        &&& res.unwrap().next_state == crate::out_local::State::SwapExactIn(self)
        &&& is_channel_repair(
            res.unwrap().response,
            self.spec.spec_dex_account().dex.connection_id,
            self.spec.spec_label(),
            env,
        )
    }

    open spec fn spec_on_time_alarm(
        self,
        env: Env,
        res: HandlerResult<crate::out_local::State<SwapTask>, SwapTask::Result>,
    ) -> bool {
        res == HandlerResult::<crate::out_local::State<SwapTask>, SwapTask::Result>::Continue(
            Err(Error::UnsupportedOperation),
        )
    }

    fn on_response(self, response: &Vec<u8>, env: &Env) -> (res: HandlerResult<
        crate::out_local::State<SwapTask>,
        SwapTask::Result,
    >) {
        let amount_out: CoinDTO = match self.decode_response(response) {
            Err(error) => { return HandlerResult::Continue(Err(error)); },
            Ok(amount_out) => amount_out,
        };
        let next_state: TransferInInit<SwapTask> = TransferInInit::new(self.spec, amount_out);
        match next_state.enter(env.now) {
            Err(error) => HandlerResult::Continue(Err(error)),
            Ok(batch) => HandlerResult::Continue(
                Ok(
                    Response {
                        response: crate::batch::Response::messages_only(batch),
                        next_state: crate::out_local::State::TransferInInit(next_state),
                    },
                ),
            ),
        }
    }

    fn on_timeout(self, env: &Env) -> (res: ContinueResult<crate::out_local::State<SwapTask>>) {
        let state_label = self.spec.label();
        let repaired = on_timeout_repair_channel(self, state_label, env);
        Ok(
            Response {
                response: repaired.response,
                next_state: crate::out_local::State::SwapExactIn(repaired.next_state),
            },
        )
    }

    fn on_time_alarm(self, env: &Env) -> (res: HandlerResult<
        crate::out_local::State<SwapTask>,
        SwapTask::Result,
    >) {
        HandlerResult::Continue(Err(Error::UnsupportedOperation))
    }
}

impl<SwapTask: SwapTaskT> Handler for SwapExactIn<SwapTask, crate::out_remote::Remote> {
    type Response = crate::out_remote::State<SwapTask>;

    type SwapResult = SwapTask::Result;

    open spec fn handler_inv(&self) -> bool {
        self.spec.wf()
    }

    /// A reply that cannot be read fails the step. What a readable reply
    /// reports finishes the task.
    open spec fn spec_on_response(
        self,
        response: Seq<u8>,
        env: Env,
        res: HandlerResult<crate::out_remote::State<SwapTask>, SwapTask::Result>,
    ) -> bool {
        match spec_decode_response(
            self.spec.spec_coins().len() as int,
            self.spec.spec_out_currency(),
            self.spec.spec_out_group(),
            response,
        ) {
            Err(error) => res == HandlerResult::<
                crate::out_remote::State<SwapTask>,
                SwapTask::Result,
            >::Continue(Err(error)),
            Ok(amount_out) => res == HandlerResult::<
                crate::out_remote::State<SwapTask>,
                SwapTask::Result,
            >::Finished(self.spec.spec_finish(amount_out, env.now)),
        }
    }

    open spec fn spec_on_timeout(
        self,
        env: Env,
        res: ContinueResult<crate::out_remote::State<SwapTask>>,
    ) -> bool {
        &&& res.is_ok()
        &&& res.unwrap().next_state == crate::out_remote::State::SwapExactIn(self)
        &&& is_channel_repair(
            res.unwrap().response,
            self.spec.spec_dex_account().dex.connection_id,
            self.spec.spec_label(),
            env,
        )
    }

    open spec fn spec_on_time_alarm(
        self,
        env: Env,
        res: HandlerResult<crate::out_remote::State<SwapTask>, SwapTask::Result>,
    ) -> bool {
        res == HandlerResult::<crate::out_remote::State<SwapTask>, SwapTask::Result>::Continue(
            Err(Error::UnsupportedOperation),
        )
    }

    fn on_response(self, response: &Vec<u8>, env: &Env) -> (res: HandlerResult<
        crate::out_remote::State<SwapTask>,
        SwapTask::Result,
    >) {
        match self.decode_response(response) {
            Err(error) => HandlerResult::Continue(Err(error)),
            Ok(amount_out) => HandlerResult::Finished(self.spec.finish(amount_out, env.now)),
        }
    }

    fn on_timeout(self, env: &Env) -> (res: ContinueResult<crate::out_remote::State<SwapTask>>) {
        let state_label = self.spec.label();
        let repaired = on_timeout_repair_channel(self, state_label, env);
        Ok(
            Response {
                response: repaired.response,
                next_state: crate::out_remote::State::SwapExactIn(repaired.next_state),
            },
        )
    }

    fn on_time_alarm(self, env: &Env) -> (res: HandlerResult<
        crate::out_remote::State<SwapTask>,
        SwapTask::Result,
    >) {
        HandlerResult::Continue(Err(Error::UnsupportedOperation))
    }
}

} // verus!
