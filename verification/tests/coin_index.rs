use lease_core::address::Addr;
use lease_core::coin::{CoinDTO, Currency};
use lease_core::coin_index::{visit_at_index, CoinsIndexVisitor};
use lease_core::connection::{Account, ConnectionParams, Ics20Channel};
use lease_core::contract::buy_asset::{BuyAsset, NewLease};
use lease_core::error::Error;
use lease_core::ica::HostAccount;
use lease_core::percent::Percent;
use lease_core::swap_coins::{on_coin, on_coins, TestVisitor};
use lease_core::swap_task::{CoinVisitor, IterNext, IterState};

fn coin1() -> CoinDTO {
    CoinDTO::new(32, Currency::Usdc)
}

fn coin2() -> CoinDTO {
    CoinDTO::new(28, Currency::Dai)
}

fn task() -> BuyAsset {
    let form = NewLease {
        addr: Addr::unchecked("lease"),
        customer: Addr::unchecked("customer"),
        asset: Currency::Atom,
        lpn: Currency::Usdc,
        lpp: Addr::unchecked("lpp"),
        time_alarms: Addr::unchecked("timealarms"),
        annual_margin_interest: Percent::from_permille(30),
        interest_due_period_secs: 90 * 24 * 60 * 60,
        grace_period_secs: 10 * 24 * 60 * 60,
    };
    let account = Account::new(
        Addr::unchecked("lease"),
        HostAccount::try_from(String::from("host")).unwrap(),
        ConnectionParams {
            connection_id: String::from("connection-0"),
            transfer_channel: Ics20Channel {
                local_endpoint: String::from("channel-0"),
                remote_endpoint: String::from("channel-1045"),
            },
        },
    );
    BuyAsset::new(form, account, coin1(), coin2())
}

#[test]
fn visit_first_index() {
    let v = TestVisitor::new();
    let mut v_idx = CoinsIndexVisitor {
        coins_left: 0,
        visitor: v,
    };
    let v_res = v_idx.visit(&coin1()).unwrap();
    assert_eq!(v_res, IterNext::Stop);
    let v = v_idx.visitor;
    assert!(v.first_visited(coin1().amount()));
    assert!(v.second_not_visited());
}

#[test]
fn visit_second_index() {
    let v = TestVisitor::new();
    let mut v_idx = CoinsIndexVisitor {
        coins_left: 1,
        visitor: v,
    };
    let v_res = v_idx.visit(&coin1()).unwrap();
    assert_eq!(v_res, IterNext::Continue);
    let v_res = v_idx.visit(&coin2()).unwrap();
    assert_eq!(v_res, IterNext::Stop);
    let v = v_idx.visitor;
    assert!(v.first_visited(coin2().amount()));
    assert!(v.second_not_visited());
}

#[test]
fn visit_bigger_index() {
    let v = TestVisitor::new();
    let mut v_idx = CoinsIndexVisitor {
        coins_left: 2,
        visitor: v,
    };
    let v_res = v_idx.visit(&coin1()).unwrap();
    assert_eq!(v_res, IterNext::Continue);
    let v_res = v_idx.visit(&coin2()).unwrap();
    assert_eq!(v_res, IterNext::Continue);
    let v = v_idx.visitor;
    assert!(v.first_not_visited());
    assert!(v.second_not_visited());
}

#[test]
fn visit_at_index_is_the_direct_visit() {
    let spec = task();

    let (v, res) = visit_at_index(&spec, 0, TestVisitor::new());
    assert_eq!(Ok(IterState::Incomplete), res);
    assert!(v.first_visited(32));
    assert!(v.second_not_visited());

    let (v, res) = visit_at_index(&spec, 1, TestVisitor::new());
    assert_eq!(Ok(IterState::Complete), res);
    assert!(v.first_visited(28));
    assert!(v.second_not_visited());

    let (v, res) = visit_at_index(&spec, 2, TestVisitor::new());
    assert_eq!(Ok(IterState::Complete), res);
    assert!(v.first_not_visited());

    let mut direct = TestVisitor::new();
    direct.visit(&coin2()).unwrap();
    let (v, _) = visit_at_index(&spec, 1, TestVisitor::new());
    assert_eq!(direct, v);
}

#[test]
fn visit_at_index_passes_the_error_on() {
    let spec = task();
    let full = TestVisitor {
        first: Some(1),
        second: Some(2),
    };
    let (v, res) = visit_at_index(&spec, 0, full);
    assert_eq!(Err(Error::UnsupportedOperation), res);
    assert_eq!(full, v);
}

#[test]
fn index_adapter_stops_a_pair() {
    let mut v_idx = CoinsIndexVisitor {
        coins_left: 0,
        visitor: TestVisitor::new(),
    };
    assert_eq!(
        Ok(IterState::Incomplete),
        on_coins(&coin1(), &coin2(), &mut v_idx)
    );
    assert!(v_idx.visitor.first_visited(32));

    let mut v_idx = CoinsIndexVisitor {
        coins_left: 1,
        visitor: TestVisitor::new(),
    };
    assert_eq!(
        Ok(IterState::Complete),
        on_coins(&coin1(), &coin2(), &mut v_idx)
    );
    assert!(v_idx.visitor.first_visited(28));

    let mut v_idx = CoinsIndexVisitor {
        coins_left: 0,
        visitor: TestVisitor::new(),
    };
    assert_eq!(Ok(IterState::Complete), on_coin(&coin1(), &mut v_idx));
    assert!(v_idx.at_coin());
}
