use lease_core::address::Addr;
use lease_core::api::{
    ClosingTrx, ExecuteMsg, MessageInfo, OpeningTrx, Operation, StateResponse,
};
use lease_core::batch::Msg;
use lease_core::coin::{CoinDTO, Currency};
use lease_core::connection::{ConnectionParams, Ics20Channel};
use lease_core::contract::buy_asset::NewLease;
use lease_core::contract::closed::Closed;
use lease_core::contract::error::ContractError;
use lease_core::contract::opening::OpenIcaAccount;
use lease_core::contract::paid::Active;
use lease_core::contract::state::{Phase, State};
use lease_core::contract::transfer_in_init::TransferInInit;
use lease_core::env::Env;
use lease_core::event::{Attribute, EventKind, Type};
use lease_core::ica::{IcaError, OpenAckVersion};
use lease_core::loan::{LoanError, LppLoan};
use lease_core::msg_data::SWAP_REQUEST_TYPE_URL;
use lease_core::percent::Percent;
use lease_core::resp_delivery::{Reply, REPLY_ID};
use lease_core::ica_connector::IcaConnector;
use lease_core::response::{DexConnectable, Enterable};
use lease_core::timestamp::Timestamp;

const DAY_NANOS: u64 = 24 * 60 * 60 * 1_000_000_000;

fn field(number: u8, payload: &[u8]) -> Vec<u8> {
    let mut bytes = vec![(number << 3) | 2, payload.len() as u8];
    bytes.extend_from_slice(payload);
    bytes
}

fn reply(amounts: &[&str]) -> Vec<u8> {
    let mut bytes = Vec::new();
    for amount in amounts {
        let mut result = field(1, SWAP_REQUEST_TYPE_URL.as_bytes());
        result.extend(field(2, &field(1, amount.as_bytes())));
        bytes.extend(field(1, &result));
    }
    bytes
}

fn pool() -> Option<LppLoan> {
    Some(LppLoan {
        principal_due: 1_000_000_000,
        annual_interest_rate: Percent::from_permille(70),
        interest_paid: Timestamp::from_nanos(0),
    })
}

fn env(day: u64, balances: Vec<CoinDTO>) -> Env {
    Env::new(
        Timestamp::from_nanos(day * DAY_NANOS),
        Addr::unchecked("lease"),
        balances,
        pool(),
    )
}

fn no_funds() -> MessageInfo {
    MessageInfo {
        sender: Addr::unchecked("customer"),
        funds: vec![],
    }
}

fn funds(coins: Vec<CoinDTO>) -> MessageInfo {
    MessageInfo {
        sender: Addr::unchecked("customer"),
        funds: coins,
    }
}

fn opening() -> State {
    State::OpenIcaAccount(OpenIcaAccount::new(
        NewLease {
            addr: Addr::unchecked("lease"),
            customer: Addr::unchecked("customer"),
            asset: Currency::Atom,
            lpn: Currency::Usdc,
            lpp: Addr::unchecked("lpp"),
            time_alarms: Addr::unchecked("timealarms"),
            annual_margin_interest: Percent::from_permille(30),
            interest_due_period_secs: 90 * 24 * 60 * 60,
            grace_period_secs: 10 * 24 * 60 * 60,
        },
        CoinDTO::new(400_000_000, Currency::Usdc),
        CoinDTO::new(1_000_000_000, Currency::Usdc),
        ConnectionParams {
            connection_id: String::from("connection-0"),
            transfer_channel: Ics20Channel {
                local_endpoint: String::from("channel-0"),
                remote_endpoint: String::from("channel-1045"),
            },
        },
    ))
}

fn ack(address: &str) -> OpenAckVersion {
    OpenAckVersion {
        version: String::from("ics27-1"),
        controller_connection_id: String::from("connection-0"),
        host_connection_id: String::from("connection-5"),
        address: String::from(address),
        encoding: String::from("proto3"),
        tx_type: String::from("sdk_multi_msg"),
    }
}

fn buying() -> State {
    opening()
        .on_open_ica(ack("osmo1host"), &env(0, vec![]))
        .unwrap()
        .next_state
}

fn delivering() -> State {
    buying()
        .on_response(reply(&["100", "250"]), &env(0, vec![]))
        .unwrap()
        .next_state
}

fn active() -> State {
    delivering().on_inner(&env(0, vec![])).unwrap().next_state
}

fn closing() -> State {
    active()
        .execute(&env(1, vec![]), no_funds(), ExecuteMsg::Close)
        .unwrap()
        .next_state
}

fn waiting() -> State {
    closing()
        .on_response(Vec::new(), &env(1, vec![]))
        .unwrap()
        .next_state
}

fn closed() -> State {
    waiting()
        .execute(
            &env(2, vec![CoinDTO::new(350, Currency::Atom)]),
            no_funds(),
            ExecuteMsg::TimeAlarm(Timestamp::from_nanos(2 * DAY_NANOS)),
        )
        .unwrap()
        .next_state
}

#[test]
fn life_cycle_runs_from_opening_to_closed() {
    assert_eq!(Phase::Opening, opening().phase());
    assert_eq!(Phase::Opening, buying().phase());
    assert_eq!(Phase::Opening, delivering().phase());
    assert_eq!(Phase::Active, active().phase());
    assert_eq!(Phase::ClosingTransferIn, closing().phase());
    assert_eq!(Phase::ClosingTransferIn, waiting().phase());
    assert_eq!(Phase::Closed, closed().phase());
    assert_eq!(State::Closed(Closed {}), closed());
}

#[test]
fn opening_asks_for_the_account_and_then_for_the_asset() {
    let opening_state = match opening() {
        State::OpenIcaAccount(state) => state,
        other => panic!("unexpected {other:?}"),
    };
    assert_eq!(
        vec![Msg::RegisterInterchainAccount {
            connection_id: String::from("connection-0"),
            interchain_account_id: "0"
        }],
        opening_state.enter().msgs
    );

    let response = opening()
        .on_open_ica(ack("osmo1host"), &env(0, vec![]))
        .unwrap();
    assert_eq!(1, response.response.messages.len());
    assert_eq!(
        EventKind::Lease(Type::OpenIcaAccount),
        response.response.events[0].kind
    );
    match response.next_state {
        State::BuyAsset(swap) => {
            assert_eq!(CoinDTO::new(400_000_000, Currency::Usdc), swap.spec.downpayment);
            assert_eq!(CoinDTO::new(1_000_000_000, Currency::Usdc), swap.spec.loan);
            assert_eq!("osmo1host", swap.spec.account.host.as_str());
        }
        other => panic!("unexpected {other:?}"),
    }
}

#[test]
fn acknowledgment_without_an_address_fails_the_opening() {
    assert_eq!(
        ContractError::Ica(IcaError::InvalidICAHostAccount),
        opening()
            .on_open_ica(ack(""), &env(0, vec![]))
            .unwrap_err()
    );
}

#[test]
fn purchase_makes_the_lease_active() {
    let captured = buying()
        .on_response(reply(&["100", "250"]), &env(0, vec![]))
        .unwrap();
    assert_eq!(
        vec![Msg::ForwardToInner {
            contract: Addr::unchecked("lease"),
            reply_on_error_id: 12345678901
        }],
        captured.response.messages.msgs
    );
    assert!(captured.response.events.is_empty());
    assert_eq!(Phase::Opening, captured.next_state.phase());

    let response = captured.next_state.on_inner(&env(0, vec![])).unwrap();
    assert!(response.response.messages.is_empty());
    assert_eq!(
        EventKind::Lease(Type::OpenedActive),
        response.response.events[0].kind
    );
    assert_eq!(
        vec![
            Attribute::Id(Addr::unchecked("lease")),
            Attribute::At(Timestamp::from_nanos(0)),
            Attribute::Amount(CoinDTO::new(350, Currency::Atom)),
        ],
        response.response.events[0].attributes
    );
    match response.next_state {
        State::Active(active) => {
            assert_eq!(CoinDTO::new(350, Currency::Atom), active.lease.amount)
        }
        other => panic!("unexpected {other:?}"),
    }
    assert_eq!(
        ContractError::Dex(lease_core::error::Error::ExtraResponses),
        buying()
            .on_response(reply(&["100", "250", "1"]), &env(0, vec![]))
            .unwrap()
            .next_state
            .on_inner(&env(0, vec![]))
            .unwrap_err()
    );
}

#[test]
fn opening_states_refuse_commands_and_let_alarms_pass() {
    for state in [opening, buying, delivering] {
        assert_eq!(
            ContractError::UnsupportedOperation(Operation::Repay),
            state()
                .execute(&env(0, vec![]), no_funds(), ExecuteMsg::Repay)
                .unwrap_err()
        );
        assert_eq!(
            ContractError::UnsupportedOperation(Operation::Close),
            state()
                .execute(&env(0, vec![]), no_funds(), ExecuteMsg::Close)
                .unwrap_err()
        );
        let response = state()
            .execute(&env(0, vec![]), no_funds(), ExecuteMsg::PriceAlarm)
            .unwrap();
        assert_eq!(state(), response.next_state);
        assert!(response.response.messages.is_empty());
        assert!(response.response.events.is_empty());
    }
}

#[test]
fn active_lease_takes_repayments() {
    let response = active()
        .execute(
            &env(45, vec![]),
            funds(vec![CoinDTO::new(5_000_000, Currency::Usdc)]),
            ExecuteMsg::Repay,
        )
        .unwrap();
    assert_eq!(
        vec![Msg::RepayLoan {
            lpp: Addr::unchecked("lpp"),
            amount: CoinDTO::new(1_301_370, Currency::Usdc)
        }],
        response.response.messages.msgs
    );
    assert_eq!(
        EventKind::Lease(Type::PaidActive),
        response.response.events[0].kind
    );
    assert_eq!(
        vec![
            Attribute::Id(Addr::unchecked("lease")),
            Attribute::At(Timestamp::from_nanos(45 * DAY_NANOS)),
            Attribute::Amount(CoinDTO::new(5_000_000, Currency::Usdc)),
        ],
        response.response.events[0].attributes
    );
    match response.next_state {
        State::Active(active) => assert_eq!(
            Timestamp::from_nanos(45 * DAY_NANOS),
            active.lease.loan.current_period().start()
        ),
        other => panic!("unexpected {other:?}"),
    }
}

#[test]
fn repayment_that_leaves_nothing_for_the_pool_sends_nothing() {
    let response = active()
        .execute(
            &env(45, vec![]),
            funds(vec![CoinDTO::new(3_698_630, Currency::Usdc)]),
            ExecuteMsg::Repay,
        )
        .unwrap();
    assert!(response.response.messages.is_empty());
    assert_eq!(1, response.response.events.len());
}

#[test]
fn repayment_is_refused_without_the_right_funds() {
    let repay = |coins: Vec<CoinDTO>, env: &Env| {
        active()
            .execute(env, funds(coins), ExecuteMsg::Repay)
            .unwrap_err()
    };
    assert_eq!(ContractError::NoPaymentError, repay(vec![], &env(1, vec![])));
    assert_eq!(
        ContractError::UnexpectedFunds,
        repay(
            vec![
                CoinDTO::new(1, Currency::Usdc),
                CoinDTO::new(1, Currency::Usdc)
            ],
            &env(1, vec![])
        )
    );
    assert_eq!(
        ContractError::PaymentCurrency {
            expected: Currency::Usdc,
            found: Currency::Atom
        },
        repay(vec![CoinDTO::new(1, Currency::Atom)], &env(1, vec![]))
    );
    let mut no_loan = env(1, vec![]);
    no_loan.lpp_loan = None;
    assert_eq!(
        ContractError::Loan(LoanError::LoanClosed),
        repay(vec![CoinDTO::new(1, Currency::Usdc)], &no_loan)
    );
}

#[test]
fn close_moves_the_asset_back() {
    let response = active()
        .execute(&env(1, vec![]), no_funds(), ExecuteMsg::Close)
        .unwrap();
    assert_eq!(1, response.response.messages.len());
    assert_eq!(1, response.response.events.len());
    assert_eq!(
        EventKind::Lease(Type::ClosingTransferIn),
        response.response.events[0].kind
    );
    assert_eq!(
        vec![
            Attribute::Id(Addr::unchecked("lease")),
            Attribute::At(Timestamp::from_nanos(DAY_NANOS)),
            Attribute::Amount(CoinDTO::new(350, Currency::Atom)),
        ],
        response.response.events[0].attributes
    );
    let transfer = match response.next_state {
        State::TransferInInit(transfer) => transfer,
        other => panic!("unexpected {other:?}"),
    };
    assert_eq!(
        transfer.enter(&env(1, vec![])).unwrap(),
        response.response.messages
    );
    assert_eq!("connection-0", transfer.dex().connection_id);
    assert_eq!(CoinDTO::new(350, Currency::Atom), transfer.lease.amount);
}

#[test]
fn closing_lease_refuses_commands_and_waits_for_the_funds() {
    for state in [closing, waiting] {
        assert_eq!(
            ContractError::UnsupportedOperation(Operation::Repay),
            state()
                .execute(&env(1, vec![]), no_funds(), ExecuteMsg::Repay)
                .unwrap_err()
        );
        assert_eq!(
            ContractError::UnsupportedOperation(Operation::Close),
            state()
                .execute(&env(1, vec![]), no_funds(), ExecuteMsg::Close)
                .unwrap_err()
        );
        let response = state()
            .execute(&env(1, vec![]), no_funds(), ExecuteMsg::PriceAlarm)
            .unwrap();
        assert_eq!(state(), response.next_state);
    }

    let still_waiting = waiting()
        .execute(
            &env(2, vec![CoinDTO::new(349, Currency::Atom)]),
            no_funds(),
            ExecuteMsg::TimeAlarm(Timestamp::from_nanos(2 * DAY_NANOS)),
        )
        .unwrap();
    assert_eq!(waiting(), still_waiting.next_state);
    assert_eq!(
        vec![Msg::AddTimeAlarm {
            time_alarms: Addr::unchecked("timealarms"),
            time: Timestamp::from_nanos(2 * DAY_NANOS + 5_000_000_000)
        }],
        still_waiting.response.messages.msgs
    );
}

#[test]
fn arrival_of_the_funds_closes_the_lease() {
    let response = waiting()
        .execute(
            &env(2, vec![CoinDTO::new(350, Currency::Atom)]),
            no_funds(),
            ExecuteMsg::TimeAlarm(Timestamp::from_nanos(2 * DAY_NANOS)),
        )
        .unwrap();
    assert_eq!(State::Closed(Closed {}), response.next_state);
    assert_eq!(
        vec![Msg::BankSend {
            to: Addr::unchecked("customer"),
            amount: CoinDTO::new(350, Currency::Atom)
        }],
        response.response.messages.msgs
    );
    assert_eq!(
        EventKind::Lease(Type::Closed),
        response.response.events[0].kind
    );

    let at_once = closing()
        .on_response(Vec::new(), &env(1, vec![CoinDTO::new(350, Currency::Atom)]))
        .unwrap();
    assert_eq!(State::Closed(Closed {}), at_once.next_state);
}

#[test]
fn closed_lease_refuses_commands_and_ignores_alarms() {
    assert_eq!(
        ContractError::UnsupportedOperation(Operation::Repay),
        closed()
            .execute(&env(3, vec![]), no_funds(), ExecuteMsg::Repay)
            .unwrap_err()
    );
    assert_eq!(
        ContractError::UnsupportedOperation(Operation::Close),
        closed()
            .execute(&env(3, vec![]), no_funds(), ExecuteMsg::Close)
            .unwrap_err()
    );
    for alarm in [
        ExecuteMsg::PriceAlarm,
        ExecuteMsg::TimeAlarm(Timestamp::from_nanos(7)),
    ] {
        let response = closed().execute(&env(3, vec![]), no_funds(), alarm).unwrap();
        assert_eq!(closed(), response.next_state);
        assert!(response.response.messages.is_empty());
        assert!(response.response.events.is_empty());
    }
    assert_eq!(
        ContractError::UnexpectedOutcome,
        closed().on_response(Vec::new(), &env(3, vec![])).unwrap_err()
    );
    assert_eq!(
        ContractError::UnexpectedOutcome,
        closed().on_timeout(&env(3, vec![])).unwrap_err()
    );
    assert_eq!(
        ContractError::UnexpectedOutcome,
        closed()
            .on_open_ica(ack("osmo1host"), &env(3, vec![]))
            .unwrap_err()
    );
}

#[test]
fn timeouts_keep_the_state() {
    for (state, label) in [
        (buying as fn() -> State, Type::OpeningSwap),
        (closing as fn() -> State, Type::ClosingTransferIn),
    ] {
        let response = state().on_timeout(&env(1, vec![])).unwrap();
        assert_eq!(state(), response.next_state);
        assert_eq!(
            vec![Msg::RegisterInterchainAccount {
                connection_id: String::from("connection-0"),
                interchain_account_id: "0"
            }],
            response.response.messages.msgs
        );
        assert_eq!(EventKind::Lease(label), response.response.events[0].kind);
    }
    assert_eq!(
        ContractError::UnexpectedOutcome,
        active().on_timeout(&env(1, vec![])).unwrap_err()
    );
    assert_eq!(
        ContractError::UnexpectedOutcome,
        active().on_response(Vec::new(), &env(1, vec![])).unwrap_err()
    );
}

#[test]
fn state_is_reported_without_changing_it() {
    let now = Timestamp::from_nanos(1);
    assert_eq!(
        StateResponse::Opening {
            downpayment: CoinDTO::new(400_000_000, Currency::Usdc),
            loan: CoinDTO::new(1_000_000_000, Currency::Usdc),
            step: OpeningTrx::OpenIcaAccount
        },
        opening().state(now)
    );
    assert_eq!(
        StateResponse::Opening {
            downpayment: CoinDTO::new(400_000_000, Currency::Usdc),
            loan: CoinDTO::new(1_000_000_000, Currency::Usdc),
            step: OpeningTrx::BuyAsset
        },
        buying().state(now)
    );
    assert_eq!(buying().state(now), delivering().state(now));
    assert_eq!(
        StateResponse::Paid {
            amount: CoinDTO::new(350, Currency::Atom),
            in_progress: None
        },
        active().state(now)
    );
    assert_eq!(
        StateResponse::Paid {
            amount: CoinDTO::new(350, Currency::Atom),
            in_progress: Some(ClosingTrx::TransferInInit)
        },
        closing().state(now)
    );
    assert_eq!(
        StateResponse::Paid {
            amount: CoinDTO::new(350, Currency::Atom),
            in_progress: Some(ClosingTrx::TransferInFinish)
        },
        waiting().state(now)
    );
    assert_eq!(StateResponse::Closed, closed().state(now));
}

#[test]
fn single_states_report_themselves() {
    let lease = match active() {
        State::Active(active) => active.lease,
        other => panic!("unexpected {other:?}"),
    };
    let now = Timestamp::from_nanos(1);
    assert_eq!(Ok(StateResponse::Closed), Closed {}.state(now));
    assert_eq!(
        Ok(StateResponse::Paid {
            amount: CoinDTO::new(350, Currency::Atom),
            in_progress: Some(ClosingTrx::TransferInInit)
        }),
        TransferInInit::new(lease).state(now)
    );
    let lease = match active() {
        State::Active(active) => active.lease,
        other => panic!("unexpected {other:?}"),
    };
    assert_eq!(
        Ok(StateResponse::Paid {
            amount: CoinDTO::new(350, Currency::Atom),
            in_progress: None
        }),
        Active::new(lease).state(now)
    );
    assert_eq!("repay", Operation::Repay.as_str());
    assert_eq!("close", Operation::Close.as_str());
}

#[test]
fn connector_enters_the_state_that_works_with_the_account() {
    let connectee = || match opening() {
        State::OpenIcaAccount(state) => state,
        other => panic!("unexpected {other:?}"),
    };
    let connector = IcaConnector::new(connectee());
    assert_eq!(
        vec![Msg::RegisterInterchainAccount {
            connection_id: String::from("connection-0"),
            interchain_account_id: "0"
        }],
        connector.enter(Timestamp::from_nanos(0)).unwrap().msgs
    );
    assert_eq!("connection-0", connector.dex().connection_id);

    let entered = connector
        .on_open_ica(ack("osmo1host"), &env(0, vec![]))
        .unwrap();
    assert!(entered.response.events.is_empty());
    assert_eq!("osmo1host", entered.next_state.spec.account.host.as_str());
    assert_eq!(Addr::unchecked("lease"), entered.next_state.spec.account.owner);
    assert_eq!(
        entered.next_state.enter(Timestamp::from_nanos(0)).unwrap(),
        entered.response.messages
    );

    assert_eq!(
        lease_core::error::Error::Ica(IcaError::InvalidICAHostAccount),
        IcaConnector::new(connectee())
            .on_open_ica(ack(""), &env(0, vec![]))
            .unwrap_err()
    );
}

#[test]
fn failed_delivery_is_made_again_when_the_wake_up_comes() {
    let failed = Reply {
        id: REPLY_ID,
        failed: true,
    };
    let mut state = delivering();
    for round in 0..3 {
        let response = state.reply(&env(round, vec![]), failed).unwrap();
        assert_eq!(
            vec![Msg::AddTimeAlarm {
                time_alarms: Addr::unchecked("timealarms"),
                time: Timestamp::from_nanos(round * DAY_NANOS + 1)
            }],
            response.response.messages.msgs
        );
        assert_eq!(EventKind::NextDelivery, response.response.events[0].kind);
        assert_eq!(delivering(), response.next_state);
        state = response.next_state;
    }
    let response = state
        .execute(
            &env(3, vec![]),
            no_funds(),
            ExecuteMsg::TimeAlarm(Timestamp::from_nanos(3 * DAY_NANOS)),
        )
        .unwrap();
    match response.next_state {
        State::Active(active) => {
            assert_eq!(CoinDTO::new(350, Currency::Atom), active.lease.amount);
            assert_eq!(
                Timestamp::from_nanos(3 * DAY_NANOS),
                active.lease.loan.current_period().start()
            );
        }
        other => panic!("unexpected {other:?}"),
    }
}

#[test]
fn reports_that_are_not_awaited_are_refused() {
    let succeeded = Reply {
        id: REPLY_ID,
        failed: false,
    };
    let other = Reply {
        id: 7,
        failed: true,
    };
    let failed = Reply {
        id: REPLY_ID,
        failed: true,
    };
    assert_eq!(
        ContractError::UnexpectedOutcome,
        delivering().reply(&env(0, vec![]), succeeded).unwrap_err()
    );
    assert_eq!(
        ContractError::UnexpectedOutcome,
        delivering().reply(&env(0, vec![]), other).unwrap_err()
    );
    for state in [opening, buying, active, closing, waiting, closed] {
        assert_eq!(
            ContractError::UnexpectedOutcome,
            state().reply(&env(3, vec![]), failed).unwrap_err()
        );
        assert_eq!(
            ContractError::UnexpectedOutcome,
            state().on_inner(&env(3, vec![])).unwrap_err()
        );
    }
    assert_eq!(
        ContractError::UnexpectedOutcome,
        delivering().on_timeout(&env(0, vec![])).unwrap_err()
    );
    assert_eq!(
        ContractError::UnexpectedOutcome,
        delivering()
            .on_response(Vec::new(), &env(0, vec![]))
            .unwrap_err()
    );
}

#[test]
fn repaired_channel_takes_the_step_again() {
    let swap = match buying() {
        State::BuyAsset(swap) => swap,
        other => panic!("unexpected {other:?}"),
    };
    let timed_out = buying().on_timeout(&env(1, vec![])).unwrap().next_state;
    let retried = timed_out
        .on_open_ica(ack("osmo1host"), &env(2, vec![]))
        .unwrap();
    assert_eq!(buying(), retried.next_state);
    assert_eq!(
        swap.enter(Timestamp::from_nanos(2 * DAY_NANOS)).unwrap(),
        retried.response.messages
    );
    assert!(retried.response.events.is_empty());

    let transfer = match closing() {
        State::TransferInInit(transfer) => transfer,
        other => panic!("unexpected {other:?}"),
    };
    let timed_out = closing().on_timeout(&env(1, vec![])).unwrap().next_state;
    let retried = timed_out
        .on_open_ica(ack("osmo1host"), &env(2, vec![]))
        .unwrap();
    assert_eq!(closing(), retried.next_state);
    assert_eq!(
        transfer.enter(&env(2, vec![])).unwrap(),
        retried.response.messages
    );

    for state in [delivering, active, waiting, closed] {
        assert_eq!(
            ContractError::UnexpectedOutcome,
            state()
                .on_open_ica(ack("osmo1host"), &env(3, vec![]))
                .unwrap_err()
        );
    }
}
