//! The contract that collects the protocol's profit: at a fixed cadence it
//! looks at what it holds, buys the native currency for everything else and
//! hands the native currency to the treasury.
use vstd::prelude::*;
use crate::address::Addr;
use crate::batch::{Batch, Msg, Response as MessageResponse};
use crate::coin::{AnyVisitor, CoinDTO, CoinError, Currency, Group, WithCoin};
use crate::connection::Account;
use crate::duration::{Duration, UNITS_IN_HOUR};
use crate::env::Env;
use crate::error::Error as DexError;
use crate::event::{Attribute, Emitter, EventKind, Type};
use crate::out_local::Local;
use crate::response::{setup_alarm, Response};
use crate::swap_exact_in::SwapExactIn;
use crate::swap_task::{on_coins, CoinVisitor, IterNext, IterState, SwapTask};
use crate::timestamp::Timestamp;

verus! {

/// The integer the cadence is counted in: hours.
pub type CadenceHours = u16;

/// Why the contract fails a request.
#[derive(Clone, Copy, PartialEq, Eq, Structural, Debug)]
pub enum ContractError {
    /// A step of the cross-chain protocol failed.
    Dex(DexError),
}

/// The outcome of a request to the contract.
pub type ContractResult<T> = Result<T, ContractError>;

/// What the contract answers when asked for its configuration.
#[derive(Clone, Copy, PartialEq, Eq, Structural, Debug)]
pub struct ConfigResponse {
    pub cadence_hours: CadenceHours,
}

/// The configuration of the contract.
#[derive(PartialEq, Eq, Debug)]
pub struct Config {
    pub cadence_hours: CadenceHours,
    pub treasury: Addr,
    pub time_alarms: Addr,
}

impl Config {
    /// The configuration with the cadence replaced.
    pub fn update(self, cadence_hours: CadenceHours) -> (res: Self)
        ensures
            res == (Config { cadence_hours, ..self }),
    {
        Config { cadence_hours, treasury: self.treasury, time_alarms: self.time_alarms }
    }
}

/// A visitor of currencies that does nothing with any of them.
#[derive(Clone, Copy, PartialEq, Eq, Structural, Debug)]
pub struct BlankCoinVisitor;

impl AnyVisitor for BlankCoinVisitor {
    type Output = ();

    type Error = CoinError;

    fn on(self, currency: Currency) -> (res: Result<(), CoinError>)
        ensures
            res == Ok::<(), CoinError>(()),
    {
        Ok(())
    }
}

/// Coins parted in two: those of a first group and the others.
#[derive(PartialEq, Eq, Debug)]
pub struct SplitCoins {
    pub first: Vec<CoinDTO>,
    pub second: Vec<CoinDTO>,
}

impl SplitCoins {
    /// No coins on either side.
    pub fn default() -> (res: Self)
        ensures
            res.first@ == Seq::<CoinDTO>::empty(),
            res.second@ == Seq::<CoinDTO>::empty(),
    {
        SplitCoins { first: Vec::new(), second: Vec::new() }
    }

    /// The coins of `self` followed by those of `other`, side by side.
    pub fn aggregate(self, other: Self) -> (res: Self)
        ensures
            res.first@ == self.first@ + other.first@,
            res.second@ == self.second@ + other.second@,
    {
        let mut first: Vec<CoinDTO> = self.first;
        let mut second: Vec<CoinDTO> = self.second;
        let mut other_first: Vec<CoinDTO> = other.first;
        let mut other_second: Vec<CoinDTO> = other.second;
        first.append(&mut other_first);
        second.append(&mut other_second);
        SplitCoins { first, second }
    }
}

/// Puts a coin on the first side if its currency belongs to `first_group`
/// and on the second side if it does not.
#[derive(Clone, Copy, PartialEq, Eq, Structural, Debug)]
pub struct CoinToDTO {
    pub first_group: Group,
}

impl WithCoin for CoinToDTO {
    type Output = SplitCoins;

    type Error = CoinError;

    fn on(&self, coin: CoinDTO) -> (res: Result<SplitCoins, CoinError>)
        ensures
            res.is_ok(),
            self.first_group.spec_contains(coin.currency) ==> res.unwrap().first@ == seq![coin]
                && res.unwrap().second@ == Seq::<CoinDTO>::empty(),
            !self.first_group.spec_contains(coin.currency) ==> res.unwrap().first@
                == Seq::<CoinDTO>::empty() && res.unwrap().second@ == seq![coin],
    {
        let mut split: SplitCoins = SplitCoins::default();
        if self.first_group.contains(coin.currency) {
            split.first.push(coin);
        } else {
            split.second.push(coin);
        }
        Ok(split)
    }
}

/// The coins of `balances` whose belonging to `group` is `inside`, in order.
pub open spec fn spec_select(balances: Seq<CoinDTO>, group: Group, inside: bool) -> Seq<CoinDTO>
    decreases balances.len(),
{
    if balances.len() == 0 {
        Seq::empty()
    } else if group.spec_contains(balances.last().currency) == inside {
        spec_select(balances.drop_last(), group, inside).push(balances.last())
    } else {
        spec_select(balances.drop_last(), group, inside)
    }
}

/// Parts `balances` into the coins of the native currency and the others,
/// each side in the order of `balances`.
pub fn split_balances(balances: &Vec<CoinDTO>) -> (res: SplitCoins)
    ensures
        res.first@ == spec_select(balances@, Group::Native, true),
        res.second@ == spec_select(balances@, Group::Native, false),
{
    let splitter: CoinToDTO = CoinToDTO { first_group: Group::Native };
    let mut split: SplitCoins = SplitCoins::default();
    let mut index: usize = 0;
    assert(balances@.take(0) =~= Seq::<CoinDTO>::empty());
    while index < balances.len()
        invariant
            index <= balances@.len(),
            splitter.first_group == Group::Native,
            split.first@ == spec_select(balances@.take(index as int), Group::Native, true),
            split.second@ == spec_select(balances@.take(index as int), Group::Native, false),
        decreases balances@.len() - index,
    {
        proof {
            let next = balances@.take(index as int + 1);
            assert(next.drop_last() =~= balances@.take(index as int));
            assert(next.last() == balances@[index as int]);
        }
        match splitter.on(balances[index]) {
            Ok(one) => {
                split = split.aggregate(one);
            },
            Err(_) => {},
        }
        index = index + 1;
    }
    assert(balances@.take(balances@.len() as int) =~= balances@);
    split
}

/// The purchase of the native currency for everything else the contract
/// holds.
#[derive(PartialEq, Eq, Debug)]
pub struct BuyBack {
    pub profit_addr: Addr,
    pub config: Config,
    pub account: Account,
    pub coins: Vec<CoinDTO>,
}

impl BuyBack {
    /// The purchase for `coins` by the contract at `profit_addr`.
    pub fn new(profit_addr: Addr, config: Config, account: Account, coins: Vec<CoinDTO>) -> (res:
        Self)
        ensures
            res == (BuyBack { profit_addr, config, account, coins }),
    {
        BuyBack { profit_addr, config, account, coins }
    }
}

impl SwapTask for BuyBack {
    /// What was bought and the state the contract rests in from then on.
    type Result = (CoinDTO, Idle);

    open spec fn spec_coins(&self) -> Seq<CoinDTO> {
        self.coins@
    }

    open spec fn spec_out_currency(&self) -> Currency {
        Currency::Nls
    }

    open spec fn spec_out_group(&self) -> Group {
        Group::Native
    }

    open spec fn spec_dex_account(&self) -> Account {
        self.account
    }

    open spec fn spec_time_alarm(&self) -> Addr {
        self.config.time_alarms
    }

    open spec fn spec_label(&self) -> Type {
        Type::RepaymentSwap
    }

    open spec fn spec_finish(self, amount_out: CoinDTO, now: Timestamp) -> (CoinDTO, Idle) {
        (amount_out, Idle { config: self.config, account: self.account })
    }

    fn label(&self) -> (res: Type) {
        Type::RepaymentSwap
    }

    fn dex_account(&self) -> (res: &Account) {
        &self.account
    }

    fn time_alarm(&self) -> (res: &Addr) {
        &self.config.time_alarms
    }

    fn out_currency(&self) -> (res: Currency) {
        Currency::Nls
    }

    fn out_group(&self) -> (res: Group) {
        Group::Native
    }

    fn on_coins<V: CoinVisitor<Result = IterNext>>(&self, visitor: &mut V) -> (res: Result<
        IterState,
        V::Error,
    >) {
        on_coins(&self.coins, visitor)
    }

    fn finish(self, amount_out: CoinDTO, now: Timestamp) -> (res: (CoinDTO, Idle)) {
        (amount_out, Idle { config: self.config, account: self.account })
    }
}

/// The contract at rest: it waits for the wake-up of its cadence.
#[derive(PartialEq, Eq, Debug)]
pub struct Idle {
    pub config: Config,
    pub account: Account,
}

/// What a wake-up makes of the contract at rest.
#[derive(PartialEq, Eq, Debug)]
pub enum Next {
    /// Nothing was there to buy the native currency for.
    Idle(Idle),
    /// The purchase of the native currency has been asked for.
    BuyBack(SwapExactIn<BuyBack, Local>),
}

/// Whether `events` tell of the transfer of the first coin of `native` at
/// `now`: one event that names the time and the amount, or no event if there
/// is no coin or it holds nothing.
pub open spec fn spec_is_profit_event(events: Seq<Emitter>, now: Timestamp, native: Seq<CoinDTO>)
    -> bool {
    if native.len() > 0 && native[0].amount != 0 {
        &&& events.len() == 1
        &&& events[0].kind == EventKind::Profit
        &&& events[0].attributes@ == seq![Attribute::At(now), Attribute::Amount(native[0])]
    } else {
        events.len() == 0
    }
}

/// The instruction that hands `nls` to the treasury and the event that
/// tells of it; nothing if `nls` is zero.
pub fn transfer_nls(env: &Env, treasury: &Addr, nls: CoinDTO) -> (res: MessageResponse)
    ensures
        nls.amount == 0 ==> res.messages@ == Seq::<Msg>::empty() && res.events@ == Seq::<
            Emitter,
        >::empty(),
        nls.amount != 0 ==> res.messages@ == seq![Msg::BankSend { to: *treasury, amount: nls }]
            && res.events@.len() == 1 && res.events@[0].kind == EventKind::Profit
            && res.events@[0].attributes@ == seq![Attribute::At(env.now), Attribute::Amount(nls)],
{
    if nls.amount == 0 {
        MessageResponse::default()
    } else {
        let mut batch: Batch = Batch::default();
        batch.schedule_execute_no_reply(Msg::BankSend { to: treasury.clone(), amount: nls });
        let emitter: Emitter = Emitter::of_type(EventKind::Profit).emit_tx_info(env.now).emit(
            Attribute::Amount(nls),
        );
        assert(emitter.attributes@ =~= seq![Attribute::At(env.now), Attribute::Amount(nls)]);
        MessageResponse::messages_with_events(batch, emitter)
    }
}

impl Idle {
    /// The contract at rest.
    pub fn new(config: Config, account: Account) -> (res: Self)
        ensures
            res == (Idle { config, account }),
    {
        Idle { config, account }
    }

    /// The time of the wake-up that follows `now`: one cadence later.
    pub open spec fn spec_next_alarm(&self, now: Timestamp) -> int {
        now.nanos + self.config.cadence_hours * UNITS_IN_HOUR
    }

    /// The instruction that asks for the wake-up of the cadence. Fails if
    /// the time of the wake-up is not representable.
    pub fn enter(&self, now: Timestamp) -> (res: Result<Batch, DexError>)
        ensures
            self.spec_next_alarm(now) > u64::MAX ==> res == Err::<Batch, DexError>(
                DexError::TimeAlarmError,
            ),
            self.spec_next_alarm(now) <= u64::MAX ==> res.is_ok() && res.unwrap()@ == seq![
                Msg::AddTimeAlarm {
                    time_alarms: self.config.time_alarms,
                    time: Timestamp { nanos: self.spec_next_alarm(now) as u64 },
                },
            ],
    {
        let cadence: Duration = Duration::from_hours(self.config.cadence_hours);
        if cadence.nanos > u64::MAX - now.nanos {
            return Err(DexError::TimeAlarmError);
        }
        Ok(setup_alarm(&self.config.time_alarms, now.plus_nanos(cadence.nanos)))
    }

    /// Hands the first coin of `native`, if there is one, to the treasury,
    /// and asks for the next wake-up. The transfer comes first.
    pub fn send_nls(&self, env: &Env, native: &Vec<CoinDTO>) -> (res: ContractResult<
        MessageResponse,
    >)
        ensures
            self.spec_next_alarm(env.now) > u64::MAX ==> res == Err::<
                MessageResponse,
                ContractError,
            >(ContractError::Dex(DexError::TimeAlarmError)),
            self.spec_next_alarm(env.now) <= u64::MAX ==> res.is_ok() && res.unwrap().messages@
                == self.spec_send_nls_msgs(env.now, native@) && spec_is_profit_event(
                res.unwrap().events@,
                env.now,
                native@,
            ),
    {
        let state_response: MessageResponse = match self.enter(env.now) {
            Err(error) => { return Err(ContractError::Dex(error)); },
            Ok(batch) => MessageResponse::messages_only(batch),
        };
        if native.len() > 0 {
            let transfer: MessageResponse = transfer_nls(env, &self.config.treasury, native[0]);
            let ghost told = transfer.events@;
            let merged: MessageResponse = transfer.merge_with(state_response);
            assert(merged.events@ =~= told);
            Ok(merged)
        } else {
            assert(Seq::<Msg>::empty() + state_response.messages@ =~= state_response.messages@);
            Ok(state_response)
        }
    }

    /// The instructions that hand the first coin of `native`, unless there
    /// is none or it holds nothing, to the treasury and ask for the next
    /// wake-up after `now`.
    pub open spec fn spec_send_nls_msgs(&self, now: Timestamp, native: Seq<CoinDTO>) -> Seq<Msg> {
        (if native.len() > 0 && native[0].amount != 0 {
            seq![Msg::BankSend { to: self.config.treasury, amount: native[0] }]
        } else {
            Seq::<Msg>::empty()
        }) + seq![
            Msg::AddTimeAlarm {
                time_alarms: self.config.time_alarms,
                time: Timestamp { nanos: self.spec_next_alarm(now) as u64 },
            },
        ]
    }

    /// Takes the wake-up of the cadence. If the contract holds nothing but
    /// the native currency, that goes to the treasury and the contract
    /// rests again; this fails if the time of the next wake-up is not
    /// representable. Otherwise the purchase of the native currency for
    /// everything else is asked for.
    pub fn on_time_alarm(self, env: &Env) -> (res: ContractResult<Response<Next>>)
        ensures
            spec_select(env.balances@, Group::Native, false).len() == 0 ==> (if self.spec_next_alarm(
                env.now,
            ) > u64::MAX {
                res == Err::<Response<Next>, ContractError>(
                    ContractError::Dex(DexError::TimeAlarmError),
                )
            } else {
                res.is_ok() && res.unwrap().next_state == Next::Idle(self)
                    && res.unwrap().response.messages@ == self.spec_send_nls_msgs(
                    env.now,
                    spec_select(env.balances@, Group::Native, true),
                ) && spec_is_profit_event(
                    res.unwrap().response.events@,
                    env.now,
                    spec_select(env.balances@, Group::Native, true),
                )
            }),
            spec_select(env.balances@, Group::Native, false).len() > 0 ==> res.is_ok()
                && res.unwrap().response.events@ == Seq::<Emitter>::empty() && match res.unwrap().next_state {
                Next::BuyBack(swap) => swap.spec == (BuyBack {
                    profit_addr: env.contract,
                    config: self.config,
                    account: self.account,
                    coins: swap.spec.coins,
                }) && swap.spec.coins@ == spec_select(env.balances@, Group::Native, false)
                    && swap.spec_is_swap(res.unwrap().response.messages@),
                Next::Idle(_) => false,
            },
    {
        let balances: SplitCoins = split_balances(&env.balances);
        if balances.second.len() == 0 {
            match self.send_nls(env, &balances.first) {
                Err(error) => Err(error),
                Ok(response) => Ok(Response { response, next_state: Next::Idle(self) }),
            }
        } else {
            self.try_enter_buy_back(env.contract.clone(), env.now, balances.second)
        }
    }

    /// Asks for the purchase of the native currency for `balances`.
    pub fn try_enter_buy_back(self, profit_addr: Addr, now: Timestamp, balances: Vec<CoinDTO>)
        -> (res: ContractResult<Response<Next>>)
        ensures
            res.is_ok(),
            match res.unwrap().next_state {
                Next::BuyBack(swap) => swap.spec == (BuyBack {
                    profit_addr,
                    config: self.config,
                    account: self.account,
                    coins: balances,
                }) && swap.spec_is_swap(res.unwrap().response.messages@),
                Next::Idle(_) => false,
            },
            res.unwrap().response.events@ == Seq::<Emitter>::empty(),
    {
        let state: SwapExactIn<BuyBack, Local> = SwapExactIn::new(
            BuyBack::new(profit_addr, self.config, self.account, balances),
        );
        match state.enter_state(now) {
            Err(error) => Err(ContractError::Dex(error)),
            Ok(batch) => Ok(
                Response {
                    response: MessageResponse::messages_only(batch),
                    next_state: Next::BuyBack(state),
                },
            ),
        }
    }

    /// The contract at rest with the cadence replaced.
    pub fn try_update_config(self, cadence_hours: CadenceHours) -> (res: ContractResult<Self>)
        ensures
            res == Ok::<Idle, ContractError>(
                (Idle { config: Config { cadence_hours, ..self.config }, account: self.account }),
            ),
    {
        Ok(Idle { config: self.config.update(cadence_hours), account: self.account })
    }

    /// The configuration as it is reported.
    pub fn try_query_config(&self) -> (res: ContractResult<ConfigResponse>)
        ensures
            res == Ok::<ConfigResponse, ContractError>(
                (ConfigResponse { cadence_hours: self.config.cadence_hours }),
            ),
    {
        Ok(ConfigResponse { cadence_hours: self.config.cadence_hours })
    }
}

} // verus!
