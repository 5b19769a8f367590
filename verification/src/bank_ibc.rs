//! Transfers of remote funds to the local network.
use vstd::prelude::*;
use crate::address::Addr;
use crate::coin::CoinDTO;
use crate::ica::HostAccount;
use crate::timestamp::Timestamp;
use crate::trx::{RemoteCoin, RemoteMsg, Transaction};

verus! {

/// The port that transfers leave the remote network through.
pub const ICS20_PORT_AT_DEX: &'static str = "transfer";

/// Collects the amounts to transfer from the remote account `sender` to the
/// local account `receiver` over one channel, all with one timeout.
#[derive(PartialEq, Eq, Debug)]
pub struct Sender {
    pub ics20_channel_at_dex: String,
    pub sender: HostAccount,
    pub receiver: Addr,
    pub timeout: Timestamp,
    pub amounts: Vec<RemoteCoin>,
}

/// `coin` as the remote network names it.
pub open spec fn spec_remote_coin(coin: CoinDTO) -> RemoteCoin {
    RemoteCoin { amount: coin.amount, denom: coin.currency.spec_dex_symbol() }
}

/// The transfer of `amount` from `sender` to `receiver` over
/// `ics20_channel_at_dex` that is void after `timeout`.
pub open spec fn spec_new_msg(
    ics20_channel_at_dex: String,
    sender: HostAccount,
    receiver: Addr,
    amount: RemoteCoin,
    timeout: Timestamp,
) -> RemoteMsg {
    RemoteMsg::Transfer {
        source_port: ICS20_PORT_AT_DEX,
        source_channel: ics20_channel_at_dex,
        token: amount,
        sender,
        receiver,
        timeout_timestamp: timeout.nanos,
    }
}

/// The transfer of `amount` from `sender` to `receiver` over
/// `ics20_channel_at_dex` that is void after `timeout`.
pub fn new_msg(
    ics20_channel_at_dex: &String,
    sender: HostAccount,
    receiver: Addr,
    amount: RemoteCoin,
    timeout: Timestamp,
) -> (res: RemoteMsg)
    ensures
        res == spec_new_msg(*ics20_channel_at_dex, sender, receiver, amount, timeout),
{
    RemoteMsg::Transfer {
        source_port: ICS20_PORT_AT_DEX,
        source_channel: ics20_channel_at_dex.clone(),
        token: amount,
        sender,
        receiver,
        timeout_timestamp: timeout.nanos(),
    }
}

/// `coin` as the remote network names it.
pub fn into_remote_coin(coin: &CoinDTO) -> (res: RemoteCoin)
    ensures
        res == spec_remote_coin(*coin),
{
    RemoteCoin { amount: coin.amount, denom: coin.currency.dex_symbol() }
}

impl Sender {
    /// The transfers that the sender has collected, one per amount, in the
    /// order the amounts were added.
    pub open spec fn spec_msgs(self) -> Seq<RemoteMsg> {
        Seq::new(
            self.amounts@.len(),
            |i: int|
                spec_new_msg(
                    self.ics20_channel_at_dex,
                    self.sender,
                    self.receiver,
                    self.amounts@[i],
                    self.timeout,
                ),
        )
    }

    /// A sender without amounts.
    pub fn new(
        ics20_channel_at_dex: String,
        sender: HostAccount,
        receiver: Addr,
        timeout: Timestamp,
    ) -> (res: Self)
        ensures
            res.ics20_channel_at_dex == ics20_channel_at_dex,
            res.sender == sender,
            res.receiver == receiver,
            res.timeout == timeout,
            res.amounts@ == Seq::<RemoteCoin>::empty(),
    {
        Sender { ics20_channel_at_dex, sender, receiver, timeout, amounts: Vec::new() }
    }

    /// Adds `amount` to what is to be transferred.
    pub fn send(&mut self, amount: &CoinDTO)
        ensures
            final(self).amounts@ == old(self).amounts@.push(spec_remote_coin(*amount)),
            final(self).ics20_channel_at_dex == old(self).ics20_channel_at_dex,
            final(self).sender == old(self).sender,
            final(self).receiver == old(self).receiver,
            final(self).timeout == old(self).timeout,
    {
        self.amounts.push(into_remote_coin(amount));
    }

    /// One transfer per amount, in the order the amounts were added.
    pub fn into_ibc_msgs(self) -> (res: Vec<RemoteMsg>)
        ensures
            res@ == self.spec_msgs(),
    {
        let mut msgs: Vec<RemoteMsg> = Vec::new();
        let mut index: usize = 0;
        while index < self.amounts.len()
            invariant
                index <= self.amounts@.len(),
                msgs@ == self.spec_msgs().take(index as int),
            decreases self.amounts@.len() - index,
        {
            let msg: RemoteMsg = new_msg(
                &self.ics20_channel_at_dex,
                self.sender.clone(),
                self.receiver.clone(),
                self.amounts[index],
                self.timeout,
            );
            msgs.push(msg);
            assert(msgs@ == self.spec_msgs().take(index as int + 1));
            index = index + 1;
        }
        assert(self.spec_msgs().take(self.amounts@.len() as int) == self.spec_msgs());
        msgs
    }

    /// The transaction that makes the transfers.
    pub fn into_transaction(self) -> (res: Transaction)
        ensures
            res.msgs@ == self.spec_msgs(),
    {
        Transaction { msgs: self.into_ibc_msgs() }
    }
}

} // verus!
