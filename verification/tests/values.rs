use std::cmp::Ordering;

use lease_core::address::Addr;
use lease_core::batch::{Batch, Msg, Response};
use lease_core::coin::{
    from_amount_ticker, funds, AnyVisitor, CoinDTO, CoinError, Currency, Expect, Group, WithCoin,
};
use lease_core::connection::{Account, ConnectionParams, Ics20Channel};
use lease_core::duration::Duration;
use lease_core::env::Env;
use lease_core::event::{Attribute, Emitter, EventKind, Type};
use lease_core::fractionable::{
    checked_mul_amount, checked_mul_units, product_order, safe_mul_amount, safe_mul_units,
};
use lease_core::ica::{
    register_account, submit_transaction, HostAccount, IcaError, OpenAckVersion,
};
use lease_core::leaser::{
    Config as LeaserConfig, ContractError as LeaserError, InstantiateMsg, Liability, Repayment,
    UpdateConfigMsg,
};
use lease_core::lender::{
    query_balance, try_deposit, try_withdraw, BalanceResponse, ContractError as LenderError,
    Withdrawal,
};
use lease_core::percent::{Percent, Rational};
use lease_core::price::{Price, PriceDTO, PriceError};
use lease_core::profit::{
    split_balances, transfer_nls, BlankCoinVisitor, CoinToDTO, Config, ConfigResponse, Idle, Next,
    SplitCoins,
};
use lease_core::timestamp::Timestamp;
use lease_core::trx::Transaction;

#[test]
fn durations() {
    assert_eq!(1_000_000_000, Duration::from_secs(1).nanos());
    assert_eq!(u32::MAX as u64 * 1_000_000_000, Duration::from_secs(u32::MAX).nanos());
    assert_eq!(3_600_000_000_000, Duration::from_hours(1).nanos());
    assert_eq!(365 * 24 * 60 * 60 * 1_000_000_000, Duration::year().nanos());
    assert_eq!(Duration::from_nanos(7), Duration::from_nanos(7));
    assert_eq!(
        Duration::from_nanos(40),
        Duration::between(Timestamp::from_nanos(2), Timestamp::from_nanos(42))
    );
    assert_eq!(59, Duration::from_nanos(59_999_999_999).secs());
    assert!(Duration::from_nanos(0).is_zero());
    assert_eq!(17u128, Duration::from_nanos(17).into_u128());
    assert_eq!(
        Some(Duration::from_nanos(u64::MAX)),
        Duration::try_from_u128(u64::MAX as u128)
    );
    assert_eq!(None, Duration::try_from_u128(u64::MAX as u128 + 1));
}

#[test]
fn annualized_slice() {
    let quarter = Duration::from_secs(365 * 6 * 60 * 60);
    assert_eq!(250, quarter.annualized_slice_of(1000));
    assert_eq!(0, quarter.annualized_slice_of(3));
    assert_eq!(1000, Duration::year().annualized_slice_of(1000));
    assert_eq!(
        u128::MAX,
        Duration::year().annualized_slice_of(u128::MAX)
    );
    assert_eq!(
        u128::MAX / 4,
        quarter.annualized_slice_of(u128::MAX)
    );
    assert_eq!(
        None,
        Duration::from_nanos(u64::MAX).checked_annualized_slice_of(u128::MAX)
    );
    assert_eq!(
        Some(2000),
        Duration::from_secs(2 * 365 * 24 * 60 * 60).checked_annualized_slice_of(1000)
    );
}

#[test]
fn slice_per_ratio() {
    let span = Duration::from_nanos(1000);
    assert_eq!(Duration::from_nanos(250), span.into_slice_per_ratio(1, 4));
    assert_eq!(Duration::from_nanos(333), span.into_slice_per_ratio(1, 3));
    assert_eq!(span, span.into_slice_per_ratio(0, 0));
    assert_eq!(span, span.into_slice_per_ratio(7, 7));
    assert_eq!(Duration::from_nanos(0), span.into_slice_per_ratio(0, 7));
    assert_eq!(None, span.checked_slice_per_ratio(7, 0));
    assert_eq!(None, Duration::from_nanos(u64::MAX).checked_slice_per_ratio(2, 1));
    assert_eq!(
        Some(Duration::from_nanos(u64::MAX)),
        Duration::from_nanos(u64::MAX).checked_slice_per_ratio(u128::MAX, u128::MAX)
    );
}

#[test]
fn ratios_of_amounts_use_the_whole_product() {
    assert_eq!(Some(4), checked_mul_amount(5, 99, 100));
    assert_eq!(
        Some(u128::MAX / 2),
        checked_mul_amount(u128::MAX, u128::MAX / 2, u128::MAX)
    );
    assert_eq!(Some(u128::MAX - 1), checked_mul_amount(u128::MAX - 1, 3, 3));
    assert_eq!(None, checked_mul_amount(u128::MAX, 2, 1));
    assert_eq!(None, checked_mul_amount(1, 1, 0));
    assert_eq!(Some(1), checked_mul_amount(1, 0, 0));
    assert_eq!(6, safe_mul_amount(9, 2, 3));
    assert_eq!(Some(91111), checked_mul_units(410, 222222, 1000));
    assert_eq!(None, checked_mul_units(1001, u32::MAX, 1000));
    assert_eq!(None, checked_mul_units(1, 1, 0));
    assert_eq!(u32::MAX, safe_mul_units(u32::MAX, u32::MAX, u32::MAX));
}

#[test]
fn products_are_compared_without_overflow() {
    assert_eq!(-1, product_order((2, 3), (7, 1)));
    assert_eq!(0, product_order((2, 6), (4, 3)));
    assert_eq!(1, product_order((u128::MAX, u128::MAX), (u128::MAX, u128::MAX - 1)));
    assert_eq!(0, product_order((u128::MAX, 2), (2, u128::MAX)));
    assert_eq!(-1, product_order((u128::MAX, 2), (1 << 127, 5)));
    assert_eq!(0, product_order((0, u128::MAX), (0, 0)));
}

#[test]
fn percents() {
    assert_eq!(Percent::from_permille(410), Percent::from_percent(41));
    assert_eq!(123, Percent::from_permille(123).units());
    assert!(Percent::from_permille(0).is_zero());
    assert_eq!(30, Percent::from_permille(30).of(1000));
    assert_eq!(0, Percent::from_permille(30).of(33));
    assert_eq!(u128::MAX, Percent::from_percent(100).of(u128::MAX));
    assert_eq!(None, Percent::from_permille(1001).checked_of(u128::MAX));
    assert_eq!(
        Some(Percent::from_permille(100)),
        Percent::from_permille(30).checked_add(Percent::from_permille(70))
    );
    assert_eq!(
        None,
        Percent::from_permille(u32::MAX).checked_add(Percent::from_permille(1))
    );
    assert_eq!(
        Some(Percent::from_permille(50)),
        Percent::from_permille(100).checked_mul_fraction(&Rational::new(1, 2))
    );
    assert_eq!(
        None,
        Percent::from_permille(100).checked_mul_fraction(&Rational::new(1, 0))
    );
    assert_eq!(
        None,
        Percent::from_permille(u32::MAX).checked_mul_fraction(&Rational::new(2, 1))
    );
    assert_eq!(7, Rational::new(7, 9).parts());
    assert_eq!(9, Rational::new(7, 9).total());
}

#[test]
fn timestamps() {
    let t = Timestamp::from_nanos(1_999_999_999);
    assert_eq!(1, t.seconds());
    assert_eq!(1_999_999_999, t.nanos());
    assert_eq!(Timestamp::from_nanos(2_000_000_000), t.plus_nanos(1));
    assert_eq!(Timestamp::from_nanos(3_000_000_000), Timestamp::from_seconds(3));
    assert!(t.le(&t));
    assert!(!t.plus_nanos(1).le(&t));
    assert_eq!(
        Timestamp::from_nanos(5),
        Timestamp::from_nanos(1).clamp(Timestamp::from_nanos(5), Timestamp::from_nanos(9))
    );
    assert_eq!(
        Timestamp::from_nanos(9),
        Timestamp::from_nanos(10).clamp(Timestamp::from_nanos(5), Timestamp::from_nanos(9))
    );
    assert!(t.allows_lookahead());
    assert!(!Timestamp::from_nanos(u64::MAX).allows_lookahead());
}

#[test]
fn prices_compare_by_cross_multiplication() {
    let price = |base: u128, quote: u128| {
        PriceDTO::new(
            CoinDTO::new(base, Currency::Atom),
            CoinDTO::new(quote, Currency::Usdc),
        )
    };
    assert_eq!(Some(Ordering::Less), price(1, 2).partial_cmp(&price(1, 3)));
    assert_eq!(Some(Ordering::Equal), price(1, 2).partial_cmp(&price(2, 4)));
    assert_eq!(Some(Ordering::Greater), price(1, 3).partial_cmp(&price(2, 5)));
    assert_eq!(
        Some(Ordering::Greater),
        price(u128::MAX - 1, u128::MAX).partial_cmp(&price(u128::MAX, u128::MAX))
    );
    assert_eq!(
        Some(Ordering::Less),
        price(u128::MAX, u128::MAX - 1).partial_cmp(&price(u128::MAX, u128::MAX))
    );
    assert!(price(1, 2).lt(&price(1, 3)));
    assert!(!price(1, 2).lt(&price(2, 4)));
    assert_eq!(&CoinDTO::new(1, Currency::Atom), price(1, 2).base());
    assert_eq!(&CoinDTO::new(2, Currency::Usdc), price(1, 2).quote());
}

#[test]
fn prices_keep_their_currencies() {
    let dto = PriceDTO::new(
        CoinDTO::new(1, Currency::Atom),
        CoinDTO::new(12, Currency::Usdc),
    );
    assert_eq!(
        Ok(Price {
            amount: 1,
            amount_quote: 12
        }),
        dto.try_into_price(Currency::Atom, Currency::Usdc)
    );
    assert_eq!(
        Err(PriceError::UnexpectedCurrency {
            expected: Currency::Osmo,
            found: Currency::Atom
        }),
        dto.try_into_price(Currency::Osmo, Currency::Usdc)
    );
    assert_eq!(
        Err(PriceError::UnexpectedCurrency {
            expected: Currency::Dai,
            found: Currency::Usdc
        }),
        dto.try_into_price(Currency::Atom, Currency::Dai)
    );
    assert_eq!(
        dto,
        PriceDTO::from(
            Price {
                amount: 1,
                amount_quote: 12
            },
            Currency::Atom,
            Currency::Usdc
        )
    );
}

#[test]
fn coins_and_groups() {
    assert!(Group::Native.contains(Currency::Nls));
    assert!(!Group::Native.contains(Currency::Usdc));
    assert!(Group::Lpns.contains(Currency::Usdc));
    assert!(Group::Lease.contains(Currency::Atom));
    assert!(!Group::Lease.contains(Currency::Nls));
    assert!(Group::Payment.contains(Currency::Cro));
    assert_eq!(
        Ok(CoinDTO::new(5, Currency::Atom)),
        from_amount_ticker(5, Currency::Atom, Group::Lease)
    );
    assert_eq!(
        Err(CoinError::UnexpectedCurrency {
            currency: Currency::Atom,
            group: Group::Lpns
        }),
        from_amount_ticker(5, Currency::Atom, Group::Lpns)
    );
    assert_eq!("uusdc", Currency::Usdc.ticker());
    assert_eq!("ibc/dex_unls", Currency::Nls.dex_symbol());
    assert!(CoinDTO::new(0, Currency::Dai).is_zero());
    assert_eq!(CoinDTO::new(9, Currency::Dai), funds(9, Currency::Dai));
    let expect = Expect(CoinDTO::new(9, Currency::Dai));
    assert_eq!(Ok(true), expect.on(CoinDTO::new(9, Currency::Dai)));
    assert_eq!(Ok(false), expect.on(CoinDTO::new(9, Currency::Usdc)));
    assert_eq!(Ok(false), expect.on(CoinDTO::new(8, Currency::Dai)));
    assert_eq!(Ok(()), BlankCoinVisitor.on(Currency::Weth));
}

#[test]
fn host_accounts_are_not_empty() {
    assert_eq!(
        Err(IcaError::InvalidICAHostAccount),
        HostAccount::try_from(String::new())
    );
    let account = HostAccount::try_from(String::from("osmo1abc")).unwrap();
    assert_eq!("osmo1abc", account.as_str());
    assert_eq!(String::from("osmo1abc"), account.clone().into_string());
    let ack = |address: &str| OpenAckVersion {
        version: String::from("ics27-1"),
        controller_connection_id: String::from("connection-0"),
        host_connection_id: String::from("connection-5"),
        address: String::from(address),
        encoding: String::from("proto3"),
        tx_type: String::from("sdk_multi_msg"),
    };
    assert_eq!(Ok(account), ack("osmo1abc").into_host_account());
    assert_eq!(
        Err(IcaError::InvalidICAHostAccount),
        ack("").into_host_account()
    );
}

#[test]
fn interchain_account_instructions() {
    assert_eq!(
        vec![Msg::RegisterInterchainAccount {
            connection_id: String::from("connection-3"),
            interchain_account_id: "0"
        }],
        register_account(String::from("connection-3")).msgs
    );
    let batch = submit_transaction(
        String::from("connection-3"),
        Transaction::default(),
        "memo",
        Duration::from_nanos(59_999_999_999),
        CoinDTO::new(1, Currency::Nls),
        CoinDTO::new(2, Currency::Nls),
    );
    match &batch.msgs[..] {
        [Msg::SubmitTx {
            connection_id,
            interchain_account_id,
            msgs,
            memo,
            timeout,
            fee,
        }] => {
            assert_eq!("connection-3", connection_id);
            assert_eq!(&"0", interchain_account_id);
            assert!(msgs.is_empty());
            assert_eq!(&"memo", memo);
            assert_eq!(&59, timeout);
            assert_eq!(CoinDTO::new(1, Currency::Nls), fee.ack_fee);
            assert_eq!(CoinDTO::new(2, Currency::Nls), fee.timeout_fee);
        }
        other => panic!("unexpected {other:?}"),
    }
}

#[test]
fn batches_and_responses_keep_the_order() {
    let alarm = |at: u64| Msg::AddTimeAlarm {
        time_alarms: Addr::unchecked("timealarms"),
        time: Timestamp::from_nanos(at),
    };
    let mut first = Batch::default();
    assert!(first.is_empty());
    first.schedule_execute_no_reply(alarm(1));
    let mut second = Batch::default();
    second.schedule_execute_no_reply(alarm(2));
    second.schedule_execute_no_reply(alarm(3));
    let merged = first.merge(second);
    assert_eq!(3, merged.len());
    assert_eq!(vec![alarm(1), alarm(2), alarm(3)], merged.msgs);

    let event = |kind: Type| Emitter::of_type(EventKind::Lease(kind));
    let left = Response::messages_with_events(Batch::default(), event(Type::Closed));
    let mut only = Batch::default();
    only.schedule_execute_no_reply(alarm(9));
    let right = Response::messages_only(only);
    let both = left.merge_with(right);
    assert_eq!(vec![alarm(9)], both.messages.msgs);
    assert_eq!(vec![event(Type::Closed)], both.events);
    assert_eq!("ls-close", Type::Closed.as_str());
    assert_eq!("ls-open-dex-account", Type::OpenIcaAccount.as_str());
}

#[test]
fn env_reports_the_balance_of_a_currency() {
    let env = Env::new(
        Timestamp::from_nanos(1),
        Addr::unchecked("contract"),
        vec![
            CoinDTO::new(3, Currency::Usdc),
            CoinDTO::new(5, Currency::Atom),
        ],
        None,
    );
    assert_eq!(3, env.balance(Currency::Usdc));
    assert_eq!(5, env.balance(Currency::Atom));
    assert_eq!(0, env.balance(Currency::Nls));
}

#[test]
fn leaser_configuration() {
    let msg = InstantiateMsg {
        lease_code_id: 7,
        lpp_ust_addr: Addr::unchecked("lpp"),
        lease_interest_rate_margin: Percent::from_percent(3),
        liability: Liability {
            initial: Percent::from_percent(65),
            healthy: Percent::from_percent(70),
            max: Percent::from_percent(80),
        },
        repayment: Repayment {
            period: Duration::from_secs(90 * 24 * 60 * 60),
            grace_period: Duration::from_secs(10 * 24 * 60 * 60),
        },
        time_alarms: Addr::unchecked("timealarms"),
        market_price_oracle: Addr::unchecked("oracle"),
        profit: Addr::unchecked("profit"),
    };
    let config = LeaserConfig::new(Addr::unchecked("owner"), msg).unwrap();
    assert_eq!(Addr::unchecked("owner"), config.owner);
    assert_eq!(7, config.lease_code_id);
    assert_eq!(Addr::unchecked("lpp"), config.lpp_addr);

    let update = UpdateConfigMsg {
        lease_interest_rate_margin: 5,
        lease_max_liability: 90,
        lease_healthy_liability: 75,
        lease_initial_liability: 75,
        repayment_period_sec: 60,
        grace_period_sec: 10,
    };
    let (margin, liability, repayment) = update.terms().unwrap();
    assert_eq!(Percent::from_permille(50), margin);
    assert_eq!(Percent::from_permille(750), liability.initial);
    assert_eq!(Percent::from_permille(900), liability.max);
    assert_eq!(Duration::from_secs(60), repayment.period);
    let updated = config.update(margin, liability, repayment);
    assert_eq!(Percent::from_permille(50), updated.lease_interest_rate_margin);
    assert_eq!(liability, updated.liability);
    assert_eq!(repayment, updated.repayment);
    assert_eq!(Addr::unchecked("owner"), updated.owner);
    assert_eq!(Addr::unchecked("profit"), updated.profit);

    let not_in_order = UpdateConfigMsg {
        lease_healthy_liability: 90,
        ..update
    };
    assert_eq!(Err(LeaserError::InvalidLiability), not_in_order.terms());
    let initial_above = UpdateConfigMsg {
        lease_initial_liability: 76,
        ..update
    };
    assert_eq!(Err(LeaserError::InvalidLiability), initial_above.terms());
}

#[test]
fn test_deposit_zero() {
    try_deposit(&vec![], Currency::Usdc, None).unwrap_err();
}

#[test]
fn test_withdraw_zero() {
    try_withdraw(
        Addr::unchecked("lender"),
        0,
        CoinDTO::new(0, Currency::Usdc),
        Some(Withdrawal { maybe_reward: None }),
    )
    .unwrap_err();
}

#[test]
fn deposits_respect_the_capacity() {
    let usdc = |amount: u128| vec![CoinDTO::new(amount, Currency::Usdc)];
    assert_eq!(Ok(100), try_deposit(&usdc(100), Currency::Usdc, None));
    assert_eq!(Ok(50), try_deposit(&usdc(50), Currency::Usdc, Some(50)));
    assert_eq!(
        Err(LenderError::UtilizationBelowMinimalRates),
        try_deposit(&usdc(100), Currency::Usdc, Some(50))
    );
    assert_eq!(
        Err(LenderError::UtilizationBelowMinimalRates),
        try_deposit(&usdc(100), Currency::Usdc, Some(0))
    );
    assert_eq!(
        Err(LenderError::NoFundsReceived),
        try_deposit(&vec![], Currency::Usdc, None)
    );
    assert_eq!(
        Err(LenderError::UnexpectedFunds),
        try_deposit(
            &vec![
                CoinDTO::new(1, Currency::Usdc),
                CoinDTO::new(1, Currency::Dai)
            ],
            Currency::Usdc,
            None
        )
    );
    assert_eq!(
        Err(LenderError::UnexpectedCurrency {
            expected: Currency::Usdc,
            found: Currency::Dai
        }),
        try_deposit(&vec![CoinDTO::new(1, Currency::Dai)], Currency::Usdc, None)
    );
}

#[test]
fn withdrawals_pay_the_lender() {
    let lender = Addr::unchecked("lender");
    let payment = CoinDTO::new(50, Currency::Usdc);
    let send = |amount: CoinDTO| Msg::BankSend {
        to: Addr::unchecked("lender"),
        amount,
    };
    assert_eq!(
        Err(LenderError::ZeroWithdrawFunds),
        try_withdraw(lender.clone(), 0, payment, None)
    );
    assert_eq!(
        Err(LenderError::NoDeposit),
        try_withdraw(lender.clone(), 50, payment, None)
    );
    assert_eq!(
        vec![send(payment)],
        try_withdraw(
            lender.clone(),
            50,
            payment,
            Some(Withdrawal { maybe_reward: None })
        )
        .unwrap()
        .msgs
    );
    assert_eq!(
        vec![send(payment)],
        try_withdraw(
            lender.clone(),
            50,
            payment,
            Some(Withdrawal {
                maybe_reward: Some(CoinDTO::new(0, Currency::Nls))
            })
        )
        .unwrap()
        .msgs
    );
    assert_eq!(
        vec![send(payment), send(CoinDTO::new(3, Currency::Nls))],
        try_withdraw(
            lender,
            50,
            payment,
            Some(Withdrawal {
                maybe_reward: Some(CoinDTO::new(3, Currency::Nls))
            })
        )
        .unwrap()
        .msgs
    );
    assert_eq!(Ok(BalanceResponse { balance: 100 }), query_balance(Some(100)));
    assert_eq!(Ok(BalanceResponse { balance: 0 }), query_balance(None));
}

fn idle() -> Idle {
    Idle::new(
        Config {
            cadence_hours: 12,
            treasury: Addr::unchecked("treasury"),
            time_alarms: Addr::unchecked("timealarms"),
        },
        Account::new(
            Addr::unchecked("profit"),
            HostAccount::try_from(String::from("osmo1profit")).unwrap(),
            ConnectionParams {
                connection_id: String::from("connection-0"),
                transfer_channel: Ics20Channel {
                    local_endpoint: String::from("channel-0"),
                    remote_endpoint: String::from("channel-1045"),
                },
            },
        ),
    )
}

fn profit_env(balances: Vec<CoinDTO>) -> Env {
    Env::new(
        Timestamp::from_nanos(1000),
        Addr::unchecked("profit"),
        balances,
        None,
    )
}

#[test]
fn idle_profit_hands_the_native_currency_to_the_treasury() {
    let alarm = Msg::AddTimeAlarm {
        time_alarms: Addr::unchecked("timealarms"),
        time: Timestamp::from_nanos(1000 + 12 * 3_600_000_000_000),
    };
    assert_eq!(
        vec![alarm.clone()],
        idle().enter(Timestamp::from_nanos(1000)).unwrap().msgs
    );

    let response = idle()
        .on_time_alarm(&profit_env(vec![CoinDTO::new(7, Currency::Nls)]))
        .unwrap();
    assert_eq!(Next::Idle(idle()), response.next_state);
    assert_eq!(
        vec![
            Msg::BankSend {
                to: Addr::unchecked("treasury"),
                amount: CoinDTO::new(7, Currency::Nls)
            },
            alarm.clone()
        ],
        response.response.messages.msgs
    );
    assert_eq!(EventKind::Profit, response.response.events[0].kind);
    assert_eq!(
        vec![
            Attribute::At(Timestamp::from_nanos(1000)),
            Attribute::Amount(CoinDTO::new(7, Currency::Nls))
        ],
        response.response.events[0].attributes
    );

    let nothing = idle().on_time_alarm(&profit_env(vec![])).unwrap();
    assert_eq!(vec![alarm], nothing.response.messages.msgs);
    assert!(nothing.response.events.is_empty());
}

#[test]
fn idle_profit_buys_the_native_currency_for_everything_else() {
    let response = idle()
        .on_time_alarm(&profit_env(vec![
            CoinDTO::new(7, Currency::Nls),
            CoinDTO::new(5, Currency::Usdc),
            CoinDTO::new(3, Currency::Atom),
        ]))
        .unwrap();
    match response.next_state {
        Next::BuyBack(swap) => {
            assert_eq!(
                vec![
                    CoinDTO::new(5, Currency::Usdc),
                    CoinDTO::new(3, Currency::Atom)
                ],
                swap.spec.coins
            );
            assert_eq!(Addr::unchecked("profit"), swap.spec.profit_addr);
        }
        other => panic!("unexpected {other:?}"),
    }
    assert_eq!(1, response.response.messages.len());
}

#[test]
fn profit_helpers() {
    let split = split_balances(&vec![
        CoinDTO::new(5, Currency::Usdc),
        CoinDTO::new(7, Currency::Nls),
        CoinDTO::new(3, Currency::Atom),
    ]);
    assert_eq!(vec![CoinDTO::new(7, Currency::Nls)], split.first);
    assert_eq!(
        vec![
            CoinDTO::new(5, Currency::Usdc),
            CoinDTO::new(3, Currency::Atom)
        ],
        split.second
    );
    let one = CoinToDTO {
        first_group: Group::Native,
    }
    .on(CoinDTO::new(1, Currency::Dai))
    .unwrap();
    assert_eq!(
        SplitCoins {
            first: vec![],
            second: vec![CoinDTO::new(1, Currency::Dai)]
        },
        one
    );
    assert_eq!(
        SplitCoins {
            first: vec![],
            second: vec![CoinDTO::new(1, Currency::Dai)]
        },
        SplitCoins::default().aggregate(one)
    );
    let env = profit_env(vec![]);
    let none = transfer_nls(&env, &Addr::unchecked("treasury"), CoinDTO::new(0, Currency::Nls));
    assert!(none.messages.is_empty());
    assert!(none.events.is_empty());
    assert_eq!(
        Ok(ConfigResponse { cadence_hours: 12 }),
        idle().try_query_config()
    );
    assert_eq!(
        Ok(ConfigResponse { cadence_hours: 24 }),
        idle().try_update_config(24).unwrap().try_query_config()
    );
    let late = || {
        let mut late = idle();
        late.config.cadence_hours = u16::MAX;
        late
    };
    assert_eq!(
        Err(lease_core::error::Error::TimeAlarmError),
        late().enter(Timestamp::from_nanos(u64::MAX - 1))
    );
    let mut at_the_end = profit_env(vec![CoinDTO::new(7, Currency::Nls)]);
    at_the_end.now = Timestamp::from_nanos(u64::MAX - 1);
    assert_eq!(
        lease_core::profit::ContractError::Dex(lease_core::error::Error::TimeAlarmError),
        late().on_time_alarm(&at_the_end).unwrap_err()
    );
}
