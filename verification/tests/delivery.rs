use lease_core::address::Addr;
use lease_core::batch::Msg;
use lease_core::coin::{CoinDTO, Currency};
use lease_core::connection::{Account, ConnectionParams, Ics20Channel};
use lease_core::contract::buy_asset::{BuyAsset, NewLease};
use lease_core::entry_delay::EntryDelay;
use lease_core::env::Env;
use lease_core::error::Error;
use lease_core::event::{Attribute, EventKind};
use lease_core::ica::HostAccount;
use lease_core::msg_data::SWAP_REQUEST_TYPE_URL;
use lease_core::out_remote::Remote;
use lease_core::percent::Percent;
use lease_core::resp_delivery::{Reply, ResponseDelivery, REPLY_ID};
use lease_core::api::{OpeningTrx, StateResponse};
use lease_core::response::{Contract, Enterable, Handler, HandlerResult};
use lease_core::swap_exact_in::SwapExactIn;
use lease_core::timestamp::Timestamp;

fn field(number: u8, payload: &[u8]) -> Vec<u8> {
    let mut bytes = vec![(number << 3) | 2, payload.len() as u8];
    bytes.extend_from_slice(payload);
    bytes
}

fn reply(amounts: &[&str]) -> Vec<u8> {
    let mut bytes = Vec::new();
    for amount in amounts {
        let mut result = field(1, SWAP_REQUEST_TYPE_URL.as_bytes());
        result.extend(field(2, &field(1, amount.as_bytes())));
        bytes.extend(field(1, &result));
    }
    bytes
}

fn swap() -> SwapExactIn<BuyAsset, Remote> {
    let form = NewLease {
        addr: Addr::unchecked("lease"),
        customer: Addr::unchecked("customer"),
        asset: Currency::Atom,
        lpn: Currency::Usdc,
        lpp: Addr::unchecked("lpp"),
        time_alarms: Addr::unchecked("timealarms"),
        annual_margin_interest: Percent::from_permille(30),
        interest_due_period_secs: 90 * 24 * 60 * 60,
        grace_period_secs: 10 * 24 * 60 * 60,
    };
    let account = Account::new(
        Addr::unchecked("lease"),
        HostAccount::try_from(String::from("osmo1host")).unwrap(),
        ConnectionParams {
            connection_id: String::from("connection-0"),
            transfer_channel: Ics20Channel {
                local_endpoint: String::from("channel-0"),
                remote_endpoint: String::from("channel-1045"),
            },
        },
    );
    SwapExactIn::new(BuyAsset::new(
        form,
        account,
        CoinDTO::new(10, Currency::Usdc),
        CoinDTO::new(20, Currency::Dai),
    ))
}

fn env(now: u64) -> Env {
    Env::new(
        Timestamp::from_nanos(now),
        Addr::unchecked("lease"),
        vec![],
        None,
    )
}

fn failed() -> Reply {
    Reply {
        id: REPLY_ID,
        failed: true,
    }
}

#[test]
fn delivery_is_attempted_at_once_by_a_call_to_self() {
    let pending = ResponseDelivery::new(swap(), reply(&["7", "18"]));
    assert_eq!(
        vec![Msg::ForwardToInner {
            contract: Addr::unchecked("lease"),
            reply_on_error_id: 12345678901
        }],
        pending.enter(Addr::unchecked("lease")).unwrap().msgs
    );
}

#[test]
fn immediate_delivery_hands_the_outcome_to_the_handler() {
    let pending = ResponseDelivery::new(swap(), reply(&["7", "18"]));
    match pending.on_inner(&env(10)) {
        HandlerResult::Finished(Ok(active)) => {
            assert_eq!(CoinDTO::new(25, Currency::Atom), active.lease.amount)
        }
        other => panic!("unexpected {other:?}"),
    }
}

#[test]
fn failed_delivery_schedules_the_next_one_and_stays_pending() {
    let pending = ResponseDelivery::new(swap(), reply(&["7", "18"]));
    let response = pending.reply(&env(10), failed()).unwrap();
    assert_eq!(
        ResponseDelivery::new(swap(), reply(&["7", "18"])),
        response.next_state
    );
    assert_eq!(
        vec![Msg::AddTimeAlarm {
            time_alarms: Addr::unchecked("timealarms"),
            time: Timestamp::from_nanos(11)
        }],
        response.response.messages.msgs
    );
    assert_eq!(1, response.response.events.len());
    assert_eq!(EventKind::NextDelivery, response.response.events[0].kind);
    assert_eq!(
        vec![Attribute::What("dex-response")],
        response.response.events[0].attributes
    );
}

#[test]
fn outcome_is_delivered_once_after_any_number_of_failures() {
    for failures in [0u64, 1, 2, 7] {
        let mut pending = ResponseDelivery::new(swap(), reply(&["7", "18"]));
        let mut alarms = 0;
        for round in 0..failures {
            let response = pending.reply(&env(10 + round), failed()).unwrap();
            alarms += response.response.messages.len();
            pending = response.next_state;
            assert_eq!(
                ResponseDelivery::new(swap(), reply(&["7", "18"])),
                pending
            );
        }
        assert_eq!(failures as usize, alarms);
        match pending.on_time_alarm(&env(100)) {
            HandlerResult::Finished(Ok(active)) => {
                assert_eq!(CoinDTO::new(25, Currency::Atom), active.lease.amount);
                assert_eq!(
                    Timestamp::from_nanos(100),
                    active.lease.loan.current_period().start()
                );
            }
            other => panic!("unexpected {other:?}"),
        }
    }
}

#[test]
fn alarm_delivery_lets_the_error_of_the_handler_escape() {
    let pending = ResponseDelivery::new(swap(), reply(&["7"]));
    assert_eq!(
        HandlerResult::Continue(Err(Error::Decode(
            lease_core::msg_data::DecodeError::MissingResponse
        ))),
        pending.on_time_alarm(&env(100))
    );
}

#[test]
fn next_delivery_event() {
    let pending = ResponseDelivery::new(swap(), Vec::new());
    let event = pending.emit_setup_next_delivery();
    assert_eq!(EventKind::NextDelivery, event.kind);
    assert_eq!(vec![Attribute::What("dex-response")], event.attributes);
}

#[test]
fn entry_delay_asks_for_a_wake_up_and_enters_when_it_comes() {
    let delay = EntryDelay::new(swap(), Addr::unchecked("timealarms"));
    assert_eq!(
        vec![Msg::AddTimeAlarm {
            time_alarms: Addr::unchecked("timealarms"),
            time: Timestamp::from_nanos(1001)
        }],
        delay.enter(Timestamp::from_nanos(1000)).unwrap().msgs
    );

    let expected = swap().enter(Timestamp::from_nanos(1001)).unwrap();
    match delay.on_time_alarm(&env(1001)) {
        HandlerResult::Continue(Ok(response)) => {
            assert_eq!(swap(), response.next_state);
            assert_eq!(expected, response.response.messages);
            assert!(response.response.events.is_empty());
        }
        other => panic!("unexpected {other:?}"),
    }
}

#[test]
fn entry_delay_awaits_nothing_but_its_wake_up() {
    let delay = || EntryDelay::new(swap(), Addr::unchecked("timealarms"));
    assert_eq!(
        HandlerResult::Continue(Err(Error::UnsupportedOperation)),
        delay().on_response(&Vec::new(), &env(1))
    );
    assert_eq!(
        Err(Error::UnsupportedOperation),
        delay().on_timeout(&env(1))
    );
    let entered = delay().enter_inner(&env(1)).unwrap();
    assert_eq!(swap(), entered.next_state);
}

#[test]
fn wrappers_report_what_they_wrap_reports() {
    let expected = StateResponse::Opening {
        downpayment: CoinDTO::new(10, Currency::Usdc),
        loan: CoinDTO::new(20, Currency::Dai),
        step: OpeningTrx::BuyAsset,
    };
    let now = Timestamp::from_nanos(1);
    assert_eq!(expected, swap().state(now));
    assert_eq!(
        expected,
        EntryDelay::new(swap(), Addr::unchecked("timealarms")).state(now)
    );
    assert_eq!(
        expected,
        ResponseDelivery::new(swap(), Vec::new()).state(now)
    );
}
