use lease_core::address::Addr;
use lease_core::bank_ibc::{into_remote_coin, new_msg, Sender};
use lease_core::coin::{CoinDTO, Currency};
use lease_core::ica::HostAccount;
use lease_core::timestamp::Timestamp;
use lease_core::trx::{RemoteCoin, RemoteMsg, Transaction};

#[test]
fn send() {
    let channel = "channel-1045";
    let sender = HostAccount::try_from(String::from("sender")).unwrap();
    let receiver = Addr::unchecked("receiver");
    let timeout = Timestamp::from_seconds(100);
    let mut funds_sender = Sender::new(
        String::from(channel),
        sender.clone(),
        receiver.clone(),
        timeout,
    );

    let coin1 = CoinDTO::new(63, Currency::Nls);
    let coin2 = CoinDTO::new(2, Currency::Usdc);
    funds_sender.send(&coin1);
    funds_sender.send(&coin2);

    assert_eq!(funds_sender.into_transaction(), {
        let mut trx = Transaction::default();
        trx.add_message(new_msg(
            &String::from(channel),
            sender.clone(),
            receiver.clone(),
            into_cosmos_sdk_coin(coin1),
            timeout,
        ));
        trx.add_message(new_msg(
            &String::from(channel),
            sender,
            receiver,
            into_cosmos_sdk_coin(coin2),
            timeout,
        ));
        trx
    });
}

fn into_cosmos_sdk_coin(coin: CoinDTO) -> RemoteCoin {
    RemoteCoin {
        amount: coin.amount(),
        denom: coin.currency().dex_symbol(),
    }
}

#[test]
fn transfer_message_fields() {
    let msg = new_msg(
        &String::from("channel-7"),
        HostAccount::try_from(String::from("osmo1sender")).unwrap(),
        Addr::unchecked("nolus1receiver"),
        into_remote_coin(&CoinDTO::new(5, Currency::Atom)),
        Timestamp::from_nanos(1_000_000_123),
    );
    assert_eq!(
        RemoteMsg::Transfer {
            source_port: "transfer",
            source_channel: String::from("channel-7"),
            token: RemoteCoin {
                amount: 5,
                denom: "ibc/dex_uatom"
            },
            sender: HostAccount {
                address: String::from("osmo1sender")
            },
            receiver: Addr::unchecked("nolus1receiver"),
            timeout_timestamp: 1_000_000_123,
        },
        msg
    );
}

#[test]
fn sender_without_amounts_sends_nothing() {
    let sender = Sender::new(
        String::from("channel-1"),
        HostAccount::try_from(String::from("sender")).unwrap(),
        Addr::unchecked("receiver"),
        Timestamp::from_seconds(1),
    );
    assert!(sender.into_ibc_msgs().is_empty());
}
