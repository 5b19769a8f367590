use lease_core::address::Addr;
use lease_core::batch::{Batch, IbcFee, Msg};
use lease_core::coin::{CoinDTO, Currency, Expect};
use lease_core::coin_index::CoinsIndexVisitor;
use lease_core::connection::{Account, ConnectionParams, Ics20Channel};
use lease_core::contract::buy_asset::{BuyAsset, NewLease};
use lease_core::contract::closed::Closed;
use lease_core::contract::transfer_in_finish::{Completion, TransferInFinish};
use lease_core::contract::transfer_in_init::TransferInInit;
use lease_core::decimal::read_number;
use lease_core::duration::Duration;
use lease_core::env::Env;
use lease_core::event::{Attribute, Emitter, EventKind, Type};
use lease_core::ica::HostAccount;
use lease_core::interest::InterestPeriod;
use lease_core::lease::Lease;
use lease_core::loan::Loan;
use lease_core::migrate::MigrationResult;
use lease_core::out_remote::Remote;
use lease_core::percent::Percent;
use lease_core::profit::{Config, Idle, Next};
use lease_core::response::DexConnectable;
use lease_core::swap_coins::TestVisitor;
use lease_core::swap_exact_in::SwapExactIn;
use lease_core::swap_task::CoinVisitor;
use lease_core::timeout::on_timeout_repair_channel;
use lease_core::timestamp::Timestamp;
use lease_core::transfer_in_finish::TransferInFinish as DexTransferInFinish;
use lease_core::transfer_in_init::TransferInInit as DexTransferInInit;
use lease_core::trx::{RemoteCoin, RemoteMsg, Transaction};

fn account() -> Account {
    Account::new(
        Addr::unchecked("lease"),
        HostAccount::try_from(String::from("osmo1host")).unwrap(),
        ConnectionParams {
            connection_id: String::from("connection-0"),
            transfer_channel: Ics20Channel {
                local_endpoint: String::from("channel-0"),
                remote_endpoint: String::from("channel-1045"),
            },
        },
    )
}

fn lease() -> Lease {
    Lease {
        addr: Addr::unchecked("lease"),
        customer: Addr::unchecked("customer"),
        amount: CoinDTO::new(350, Currency::Atom),
        loan: Loan::open(Timestamp::from_nanos(0), Percent::from_permille(30), 90, 10).unwrap(),
        lpn: Currency::Usdc,
        lpp: Addr::unchecked("lpp"),
        dex: account(),
        time_alarms: Addr::unchecked("timealarms"),
    }
}

fn task() -> BuyAsset {
    BuyAsset::new(
        NewLease {
            addr: Addr::unchecked("lease"),
            customer: Addr::unchecked("customer"),
            asset: Currency::Atom,
            lpn: Currency::Usdc,
            lpp: Addr::unchecked("lpp"),
            time_alarms: Addr::unchecked("timealarms"),
            annual_margin_interest: Percent::from_permille(30),
            interest_due_period_secs: 90,
            grace_period_secs: 10,
        },
        account(),
        CoinDTO::new(10, Currency::Usdc),
        CoinDTO::new(20, Currency::Dai),
    )
}

fn env(now: u64, balances: Vec<CoinDTO>) -> Env {
    Env::new(Timestamp::from_nanos(now), Addr::unchecked("lease"), balances, None)
}

fn transfer_of(amount: u128, denom: &'static str, now: u64) -> Vec<Msg> {
    vec![Msg::SubmitTx {
        connection_id: String::from("connection-0"),
        interchain_account_id: "0",
        msgs: vec![RemoteMsg::Transfer {
            source_port: "transfer",
            source_channel: String::from("channel-1045"),
            token: RemoteCoin { amount, denom },
            sender: HostAccount::try_from(String::from("osmo1host")).unwrap(),
            receiver: Addr::unchecked("lease"),
            timeout_timestamp: now + 60_000_000_000,
        }],
        memo: "",
        timeout: 60,
        fee: IbcFee {
            ack_fee: CoinDTO::new(1, Currency::Nls),
            timeout_fee: CoinDTO::new(1, Currency::Nls),
        },
    }]
}

#[test]
fn account_builds_transfers_and_submissions() {
    let sender = account().transfer_from(Timestamp::from_nanos(40));
    assert_eq!("channel-1045", sender.ics20_channel_at_dex);
    assert_eq!(Timestamp::from_nanos(60_000_000_040), sender.timeout);
    assert_eq!(Addr::unchecked("lease"), sender.receiver);
    assert_eq!("osmo1host", sender.sender.as_str());
    assert!(sender.amounts.is_empty());

    let mut trx = Transaction::default();
    trx.add_message(RemoteMsg::SwapExactAmountIn {
        sender: account().host().clone(),
        token_in: CoinDTO::new(1, Currency::Usdc),
        out_currency: Currency::Atom,
    });
    let msgs = trx.clone().into_msgs();
    assert_eq!(1, msgs.len());
    assert_eq!(
        vec![Msg::SubmitTx {
            connection_id: String::from("connection-0"),
            interchain_account_id: "0",
            msgs,
            memo: "",
            timeout: 60,
            fee: IbcFee {
                ack_fee: CoinDTO::new(1, Currency::Nls),
                timeout_fee: CoinDTO::new(1, Currency::Nls),
            },
        }],
        account().submit(trx).msgs
    );
    assert_eq!(&Addr::unchecked("lease"), account().owner());
    assert_eq!("connection-0", account().dex().connection_id);
}

#[test]
fn steps_enter_with_their_one_instruction() {
    assert_eq!(
        transfer_of(350, "ibc/dex_uatom", 7),
        TransferInInit::new(lease())
            .enter_state(Timestamp::from_nanos(7))
            .unwrap()
            .msgs
    );
    assert_eq!(
        transfer_of(25, "ibc/dex_uatom", 9),
        DexTransferInInit::new(task(), CoinDTO::new(25, Currency::Atom))
            .enter_state(Timestamp::from_nanos(9))
            .unwrap()
            .msgs
    );
    let swap: SwapExactIn<BuyAsset, Remote> = SwapExactIn::new(task());
    match &swap.enter_state(Timestamp::from_nanos(9)).unwrap().msgs[..] {
        [Msg::SubmitTx { msgs, .. }] => assert_eq!(2, msgs.len()),
        other => panic!("unexpected {other:?}"),
    }
}

#[test]
fn closing_completes_when_the_funds_are_there() {
    let waiting = || TransferInFinish::from(TransferInInit::new(lease()));
    let there = waiting()
        .try_complete(&env(5, vec![CoinDTO::new(350, Currency::Atom)]))
        .unwrap();
    assert_eq!(Completion::Closed(Closed {}), there.next_state);
    let not_yet = waiting()
        .try_complete(&env(5, vec![CoinDTO::new(350, Currency::Usdc)]))
        .unwrap();
    assert_eq!(Completion::Waiting(waiting()), not_yet.next_state);

    assert_eq!(
        vec![Msg::BankSend {
            to: Addr::unchecked("customer"),
            amount: CoinDTO::new(350, Currency::Atom)
        }],
        Closed {}.enter_state(&lease()).unwrap().msgs
    );
    let event = Closed {}.emit_ok(&env(5, vec![]), &lease());
    assert_eq!(EventKind::Lease(Type::Closed), event.kind);
    assert_eq!(
        vec![
            Attribute::Id(Addr::unchecked("lease")),
            Attribute::At(Timestamp::from_nanos(5))
        ],
        event.attributes
    );

    let dex_waiting =
        DexTransferInFinish::from(DexTransferInInit::new(task(), CoinDTO::new(25, Currency::Atom)));
    match dex_waiting.try_complete(&env(5, vec![CoinDTO::new(25, Currency::Atom)])) {
        lease_core::response::HandlerResult::Finished(Ok(active)) => {
            assert_eq!(CoinDTO::new(25, Currency::Atom), active.lease.amount)
        }
        other => panic!("unexpected {other:?}"),
    }
}

#[test]
fn timeout_answer_names_the_step() {
    let response = on_timeout_repair_channel(
        TransferInInit::new(lease()),
        Type::ClosingTransferIn,
        &env(5, vec![]),
    );
    assert_eq!(TransferInInit::new(lease()), response.next_state);
    assert_eq!("connection-0", response.next_state.dex().connection_id);
    assert_eq!(
        vec![Msg::RegisterInterchainAccount {
            connection_id: String::from("connection-0"),
            interchain_account_id: "0"
        }],
        response.response.messages.msgs
    );
    assert_eq!(
        vec![Emitter::of_type(EventKind::Lease(Type::ClosingTransferIn))
            .emit(Attribute::Id(Addr::unchecked("lease")))
            .emit(Attribute::What("timeout"))],
        response.response.events
    );
    assert_eq!(
        vec![Attribute::At(Timestamp::from_nanos(3))],
        Emitter::of_type(EventKind::Profit)
            .emit_tx_info(Timestamp::from_nanos(3))
            .attributes
    );
}

#[test]
fn interest_periods_are_built_step_by_step() {
    let empty = InterestPeriod::with_interest(Percent::from_permille(30));
    assert_eq!(Timestamp::from_nanos(0), empty.start());
    assert!(empty.zero_length());
    assert_eq!(Percent::from_permille(30), empty.interest_rate());
    let period = empty
        .from(Timestamp::from_nanos(100))
        .spanning(Duration::from_nanos(50));
    assert_eq!(Timestamp::from_nanos(150), period.till());
    let shifted = period.shift_start(Duration::from_nanos(20));
    assert_eq!(Timestamp::from_nanos(120), shifted.start());
    assert_eq!(Duration::from_nanos(30), shifted.length);
    assert_eq!(Timestamp::from_nanos(150), shifted.till());
    assert!(period.shift_start(Duration::from_nanos(50)).zero_length());
}

#[test]
fn numbers_are_read_up_to_their_limit() {
    assert_eq!(Some((123, 3)), read_number(b"123", 0, 255));
    assert_eq!(Some((23, 3)), read_number(b"123.4", 1, 255));
    assert_eq!(Some((255, 3)), read_number(b"255", 0, 255));
    assert_eq!(None, read_number(b"256", 0, 255));
    assert_eq!(None, read_number(b"2555", 0, 255));
    assert_eq!(None, read_number(b".1", 0, 255));
    assert_eq!(None, read_number(b"1", 1, 255));
    assert_eq!(Some((0, 3)), read_number(b"000", 0, 0));
    assert_eq!(None, read_number(b"1", 0, 0));
}

#[test]
fn migration_result_takes_more_instructions() {
    let mut more = Batch::default();
    more.schedule_execute_no_reply(Msg::MigrateWasm {
        contract: Addr::unchecked("lease2"),
        new_code_id: 3,
    });
    let mut result = MigrationResult::default();
    result.msgs.schedule_execute_no_reply(Msg::MigrateWasm {
        contract: Addr::unchecked("lease1"),
        new_code_id: 3,
    });
    result.next_customer = Some(Addr::unchecked("customer2"));
    let added = result.try_add_msgs(more).unwrap();
    assert_eq!(
        vec![
            Msg::MigrateWasm {
                contract: Addr::unchecked("lease1"),
                new_code_id: 3
            },
            Msg::MigrateWasm {
                contract: Addr::unchecked("lease2"),
                new_code_id: 3
            }
        ],
        added.msgs.msgs
    );
    assert_eq!(Some(Addr::unchecked("customer2")), added.next_customer);
}

#[test]
fn profit_steps_on_their_own() {
    let idle = || {
        Idle::new(
            Config {
                cadence_hours: 1,
                treasury: Addr::unchecked("treasury"),
                time_alarms: Addr::unchecked("timealarms"),
            },
            account(),
        )
    };
    let alarm = Msg::AddTimeAlarm {
        time_alarms: Addr::unchecked("timealarms"),
        time: Timestamp::from_nanos(5 + 3_600_000_000_000),
    };
    let sent = idle()
        .send_nls(
            &env(5, vec![]),
            &vec![CoinDTO::new(9, Currency::Nls), CoinDTO::new(1, Currency::Nls)],
        )
        .unwrap();
    assert_eq!(
        vec![
            Msg::BankSend {
                to: Addr::unchecked("treasury"),
                amount: CoinDTO::new(9, Currency::Nls)
            },
            alarm.clone()
        ],
        sent.messages.msgs
    );
    assert_eq!(1, sent.events.len());
    let nothing = idle()
        .send_nls(&env(5, vec![]), &vec![CoinDTO::new(0, Currency::Nls)])
        .unwrap();
    assert_eq!(vec![alarm], nothing.messages.msgs);
    assert!(nothing.events.is_empty());

    let entered = idle()
        .try_enter_buy_back(
            Addr::unchecked("profit"),
            Timestamp::from_nanos(5),
            vec![CoinDTO::new(3, Currency::Usdc)],
        )
        .unwrap();
    match entered.next_state {
        Next::BuyBack(swap) => assert_eq!(vec![CoinDTO::new(3, Currency::Usdc)], swap.spec.coins),
        other => panic!("unexpected {other:?}"),
    }
    assert!(entered.response.events.is_empty());
}

#[test]
fn visitors_and_expectations() {
    let mut visitor = TestVisitor::new();
    visitor.visit(&CoinDTO::new(1, Currency::Usdc)).unwrap();
    assert!(visitor.second_not_visited());
    visitor.visit(&CoinDTO::new(2, Currency::Dai)).unwrap();
    assert!(visitor.first_visited(1));
    assert!(visitor.second_visited(2));
    assert!(!visitor.second_visited(1));
    assert!(visitor.visit(&CoinDTO::new(3, Currency::Dai)).is_err());

    let mut index = CoinsIndexVisitor {
        coins_left: 2,
        visitor: TestVisitor::new(),
    };
    assert!(!index.at_coin());
    index.next_coin();
    assert_eq!(1, index.coins_left);
    index.next_coin();
    assert!(index.at_coin());

    let expect = Expect(CoinDTO::new(9, Currency::Dai));
    assert!(expect.matches(CoinDTO::new(9, Currency::Dai)));
    assert!(!expect.matches(CoinDTO::new(9, Currency::Usdc)));
}
