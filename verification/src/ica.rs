//! The interchain account a lease holds its remote funds in.
use vstd::prelude::*;
use crate::batch::{Batch, IbcFee, Msg};
use crate::coin::CoinDTO;
use crate::duration::Duration;
use crate::trx::Transaction;

verus! {

/// The identifier of the interchain account a lease opens. A lease opens
/// one account, so one identifier serves all.
pub const ICA_ACCOUNT_ID: &'static str = "0";

/// Why an account could not be identified.
#[derive(Clone, Copy, PartialEq, Eq, Structural, Debug)]
pub enum IcaError {
    /// The host network reported an empty address.
    InvalidICAHostAccount,
}

/// The address of a lease's account on the host network. It is never empty.
#[derive(PartialEq, Eq, Debug)]
pub struct HostAccount {
    pub address: String,
}

impl HostAccount {
    /// The address is not empty.
    pub open spec fn wf(&self) -> bool {
        self.address@.len() > 0
    }

    /// The account at `addr`, which has to be a non-empty address.
    pub fn try_from(addr: String) -> (res: Result<HostAccount, IcaError>)
        ensures
            addr@.len() == 0 ==> res == Err::<HostAccount, IcaError>(
                IcaError::InvalidICAHostAccount,
            ),
            addr@.len() > 0 ==> res == Ok::<HostAccount, IcaError>(
                (HostAccount { address: addr }),
            ),
            res.is_ok() ==> res.unwrap().wf(),
    {
        if addr.as_str().is_empty() {
            Err(IcaError::InvalidICAHostAccount)
        } else {
            Ok(HostAccount { address: addr })
        }
    }

    /// The address as text.
    pub fn into_string(self) -> (res: String)
        ensures
            res == self.address,
    {
        self.address
    }

    /// The address as text.
    pub fn as_str(&self) -> (res: &str)
        ensures
            res@ == self.address@,
    {
        self.address.as_str()
    }
}

impl Clone for HostAccount {
    fn clone(&self) -> (res: Self)
        ensures
            res == *self,
    {
        HostAccount { address: self.address.clone() }
    }
}

/// What the host network acknowledges the opening of an account with.
#[derive(Clone, PartialEq, Eq, Debug)]
pub struct OpenAckVersion {
    pub version: String,
    pub controller_connection_id: String,
    pub host_connection_id: String,
    pub address: String,
    pub encoding: String,
    pub tx_type: String,
}

impl OpenAckVersion {
    /// The account that the acknowledgment names.
    pub fn into_host_account(self) -> (res: Result<HostAccount, IcaError>)
        ensures
            self.address@.len() == 0 ==> res == Err::<HostAccount, IcaError>(
                IcaError::InvalidICAHostAccount,
            ),
            self.address@.len() > 0 ==> res == Ok::<HostAccount, IcaError>(
                (HostAccount { address: self.address }),
            ),
    {
        HostAccount::try_from(self.address)
    }
}

/// The instruction that opens the lease's account over `connection`.
pub fn register_account(connection: String) -> (res: Batch)
    ensures
        res@ == seq![
            Msg::RegisterInterchainAccount {
                connection_id: connection,
                interchain_account_id: ICA_ACCOUNT_ID,
            },
        ],
{
    let mut batch: Batch = Batch::default();
    batch.schedule_execute_no_reply(
        Msg::RegisterInterchainAccount {
            connection_id: connection,
            interchain_account_id: ICA_ACCOUNT_ID,
        },
    );
    batch
}

/// The instruction that submits `trx` for execution by the lease's account
/// over `connection`. The remote side gives up after `timeout`, counted in
/// whole seconds; `ack_tip` and `timeout_tip` pay the relayer.
pub fn submit_transaction(
    connection: String,
    trx: Transaction,
    memo: &'static str,
    timeout: Duration,
    ack_tip: CoinDTO,
    timeout_tip: CoinDTO,
) -> (res: Batch)
    ensures
        res@ == seq![
            Msg::SubmitTx {
                connection_id: connection,
                interchain_account_id: ICA_ACCOUNT_ID,
                msgs: trx.msgs,
                memo,
                timeout: timeout.nanos / 1_000_000_000,
                fee: IbcFee { ack_fee: ack_tip, timeout_fee: timeout_tip },
            },
        ],
{
    let mut batch: Batch = Batch::default();
    batch.schedule_execute_no_reply(
        Msg::SubmitTx {
            connection_id: connection,
            interchain_account_id: ICA_ACCOUNT_ID,
            msgs: trx.into_msgs(),
            memo,
            timeout: timeout.secs(),
            fee: IbcFee { ack_fee: ack_tip, timeout_fee: timeout_tip },
        },
    );
    batch
}

} // verus!
