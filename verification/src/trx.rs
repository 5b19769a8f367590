//! Transactions for execution on the remote network.
use vstd::prelude::*;
use crate::address::Addr;
use crate::coin::{CoinDTO, Currency};
use crate::ica::HostAccount;

verus! {

/// An amount of a currency as the remote network names it.
#[derive(Clone, Copy, PartialEq, Eq, Debug)]
pub struct RemoteCoin {
    pub amount: u128,
    pub denom: &'static str,
}

/// One message of a remote transaction.
#[derive(Clone, PartialEq, Eq, Debug)]
pub enum RemoteMsg {
    /// Moves a token over a transfer channel to the local network.
    Transfer {
        source_port: &'static str,
        source_channel: String,
        token: RemoteCoin,
        sender: HostAccount,
        receiver: Addr,
        /// Nanoseconds since the epoch after which the transfer is void.
        timeout_timestamp: u64,
    },
    /// Exchanges exactly `token_in` for as much of `out_currency` as the
    /// venue gives.
    SwapExactAmountIn { sender: HostAccount, token_in: CoinDTO, out_currency: Currency },
}

/// An ordered list of remote messages that execute together.
#[derive(Clone, PartialEq, Eq, Debug)]
pub struct Transaction {
    pub msgs: Vec<RemoteMsg>,
}

impl Transaction {
    /// The empty transaction.
    pub fn default() -> (res: Self)
        ensures
            res.msgs@ == Seq::<RemoteMsg>::empty(),
    {
        Transaction { msgs: Vec::new() }
    }

    /// Adds `msg` after the messages the transaction holds.
    pub fn add_message(&mut self, msg: RemoteMsg)
        ensures
            final(self).msgs@ == old(self).msgs@.push(msg),
    {
        self.msgs.push(msg);
    }

    /// The messages of the transaction in order.
    pub fn into_msgs(self) -> (res: Vec<RemoteMsg>)
        ensures
            res == self.msgs,
    {
        self.msgs
    }
}

} // verus!
