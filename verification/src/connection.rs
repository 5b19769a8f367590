//! The connection to the remote venue and the lease's account there.
use vstd::prelude::*;
use crate::address::Addr;
use crate::bank_ibc::Sender;
use crate::batch::{Batch, IbcFee, Msg};
use crate::coin::{CoinDTO, Currency};
use crate::duration::Duration;
use crate::ica::{submit_transaction, HostAccount, ICA_ACCOUNT_ID};
use crate::timestamp::Timestamp;
use crate::trx::{RemoteCoin, RemoteMsg, Transaction};

verus! {

/// Nanoseconds after which a transfer from the remote network is void.
pub const IBC_TIMEOUT: u64 = 60_000_000_000;

/// Seconds after which the remote side gives up on a transaction.
pub const ICA_TRX_TIMEOUT_SECS: u32 = 60;

/// The memo of the transactions the account submits.
pub const ICA_TRX_MEMO: &'static str = "";

/// What the relayer gets for an acknowledgment or a timeout, in the native
/// currency.
pub const ICA_TRX_TIP: u128 = 1;

/// What the relayer is paid for carrying a transaction of the account.
pub open spec fn spec_fee() -> IbcFee {
    IbcFee {
        ack_fee: CoinDTO { amount: ICA_TRX_TIP, currency: Currency::Nls },
        timeout_fee: CoinDTO { amount: ICA_TRX_TIP, currency: Currency::Nls },
    }
}

/// Whether `batch` is the one instruction that submits the remote messages
/// `msgs` over `connection_id`, with the account's memo, timeout and fee.
pub open spec fn is_submission(batch: Seq<Msg>, connection_id: String, msgs: Seq<RemoteMsg>)
    -> bool {
    &&& batch.len() == 1
    &&& match batch[0] {
        Msg::SubmitTx {
            connection_id: over,
            interchain_account_id,
            msgs: submitted,
            memo,
            timeout,
            fee,
        } => {
            &&& over == connection_id
            &&& interchain_account_id == ICA_ACCOUNT_ID
            &&& submitted@ == msgs
            &&& memo == ICA_TRX_MEMO
            &&& timeout == ICA_TRX_TIMEOUT_SECS
            &&& fee == spec_fee()
        },
        _ => false,
    }
}

/// The two ends of a transfer channel.
#[derive(PartialEq, Eq, Debug)]
pub struct Ics20Channel {
    pub local_endpoint: String,
    pub remote_endpoint: String,
}

/// How the remote venue is reached.
#[derive(PartialEq, Eq, Debug)]
pub struct ConnectionParams {
    pub connection_id: String,
    pub transfer_channel: Ics20Channel,
}

impl Clone for ConnectionParams {
    fn clone(&self) -> (res: Self)
        ensures
            res == *self,
    {
        ConnectionParams {
            connection_id: self.connection_id.clone(),
            transfer_channel: Ics20Channel {
                local_endpoint: self.transfer_channel.local_endpoint.clone(),
                remote_endpoint: self.transfer_channel.remote_endpoint.clone(),
            },
        }
    }
}

/// The remote funds of a lease: who owns them locally, the account that
/// holds them remotely and the connection between the two. The remote
/// address is known once the opening of the account was acknowledged.
#[derive(PartialEq, Eq, Debug)]
pub struct Account {
    pub owner: Addr,
    pub host: HostAccount,
    pub dex: ConnectionParams,
}

impl Account {
    /// The account of `owner` at `host`, reached over `dex`.
    pub fn new(owner: Addr, host: HostAccount, dex: ConnectionParams) -> (res: Self)
        ensures
            res == (Account { owner, host, dex }),
    {
        Account { owner, host, dex }
    }

    /// The local owner of the funds.
    pub fn owner(&self) -> (res: &Addr)
        ensures
            *res == self.owner,
    {
        &self.owner
    }

    /// The remote address of the account.
    pub fn host(&self) -> (res: &HostAccount)
        ensures
            *res == self.host,
    {
        &self.host
    }

    /// The connection to the remote venue.
    pub fn dex(&self) -> (res: &ConnectionParams)
        ensures
            *res == self.dex,
    {
        &self.dex
    }

    /// A sender of transfers from the remote account to its local owner
    /// over the remote end of the transfer channel. The transfers are void
    /// once the transfer timeout has passed after `now`.
    pub fn transfer_from(&self, now: Timestamp) -> (res: Sender)
        requires
            now.spec_allows_lookahead(),
        ensures
            res.ics20_channel_at_dex == self.dex.transfer_channel.remote_endpoint,
            res.sender == self.host,
            res.receiver == self.owner,
            res.timeout.nanos == now.nanos + IBC_TIMEOUT,
            res.amounts@ == Seq::<RemoteCoin>::empty(),
    {
        Sender::new(
            self.dex.transfer_channel.remote_endpoint.clone(),
            self.host.clone(),
            self.owner.clone(),
            now.plus_nanos(IBC_TIMEOUT),
        )
    }

    /// The instruction that submits `trx` for execution by the account.
    pub fn submit(&self, trx: Transaction) -> (res: Batch)
        ensures
            is_submission(res@, self.dex.connection_id, trx.msgs@),
    {
        submit_transaction(
            self.dex.connection_id.clone(),
            trx,
            ICA_TRX_MEMO,
            Duration::from_secs(ICA_TRX_TIMEOUT_SECS),
            CoinDTO { amount: ICA_TRX_TIP, currency: Currency::Nls },
            CoinDTO { amount: ICA_TRX_TIP, currency: Currency::Nls },
        )
    }
}

impl Clone for Account {
    fn clone(&self) -> (res: Self)
        ensures
            res == *self,
    {
        Account { owner: self.owner.clone(), host: self.host.clone(), dex: self.dex.clone() }
    }
}

} // verus!
