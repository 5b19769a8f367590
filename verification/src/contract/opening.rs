//! The lease that is being opened: its remote account is opened first, its
//! asset is bought next.
use vstd::prelude::*;
use crate::api::{ExecuteMsg, MessageInfo, OpeningTrx, Operation, StateResponse};
use crate::batch::{Batch, Msg, Response as MessageResponse};
use crate::coin::CoinDTO;
use crate::connection::{Account, ConnectionParams};
use crate::contract::buy_asset::{BuyAsset, NewLease};
use crate::contract::error::{ContractError, ContractResult};
use crate::env::Env;
use crate::event::{Attribute, Emitter, EventKind, Type};
use crate::error::Error;
use crate::ica::{register_account, HostAccount, OpenAckVersion, ICA_ACCOUNT_ID};
use crate::ica_connector::{IcaConnectee, IcaConnector};
use crate::out_remote::Remote;
use crate::response::{DexConnectable, Response};
use crate::swap_exact_in::SwapExactIn;
use crate::swap_task::SwapTask;
use crate::timestamp::Timestamp;

verus! {

/// The opening of the remote account of the lease has been asked for; its
/// acknowledgment is awaited.
#[derive(PartialEq, Eq, Debug)]
pub struct OpenIcaAccount {
    pub new_lease: NewLease,
    pub downpayment: CoinDTO,
    pub loan: CoinDTO,
    pub dex: ConnectionParams,
}

/// The purchase of the asset has been asked for; its reply is awaited.
pub type BuyAssetSwap = SwapExactIn<BuyAsset, Remote>;

impl OpenIcaAccount {
    /// The opening of the account for `new_lease`, which is paid for with
    /// `downpayment` and `loan` and reaches the venue over `dex`.
    pub fn new(new_lease: NewLease, downpayment: CoinDTO, loan: CoinDTO, dex: ConnectionParams)
        -> (res: Self)
        ensures
            res == (OpenIcaAccount { new_lease, downpayment, loan, dex }),
    {
        OpenIcaAccount { new_lease, downpayment, loan, dex }
    }

    /// The instruction that asks for the opening of the account.
    pub fn enter(&self) -> (res: Batch)
        ensures
            res@ == seq![
                Msg::RegisterInterchainAccount {
                    connection_id: self.dex.connection_id,
                    interchain_account_id: ICA_ACCOUNT_ID,
                },
            ],
    {
        register_account(self.dex.connection_id.clone())
    }

    /// Whether `res` is what the acknowledgment `ack` yields. An
    /// acknowledgment without an address fails the opening. Otherwise the
    /// purchase of the asset with the downpayment and the principal is
    /// asked for, an event tells of the account, and the lease awaits the
    /// reply to the purchase.
    pub open spec fn spec_on_open_ica(
        self,
        ack: OpenAckVersion,
        env: Env,
        res: ContractResult<Response<BuyAssetSwap>>,
    ) -> bool {
        if ack.address@.len() == 0 {
            res == Err::<Response<BuyAssetSwap>, ContractError>(
                ContractError::Ica(crate::ica::IcaError::InvalidICAHostAccount),
            )
        } else {
            &&& res.is_ok()
            &&& res.unwrap().next_state.spec == (BuyAsset {
                form: self.new_lease,
                account: Account {
                    owner: env.contract,
                    host: HostAccount { address: ack.address },
                    dex: self.dex,
                },
                downpayment: self.downpayment,
                loan: self.loan,
            })
            &&& res.unwrap().next_state.spec_is_swap(res.unwrap().response.messages@)
            &&& res.unwrap().response.events@.len() == 1
            &&& res.unwrap().response.events@[0].kind == EventKind::Lease(Type::OpenIcaAccount)
            &&& res.unwrap().response.events@[0].attributes@ == seq![
                Attribute::Id(self.new_lease.addr),
                Attribute::At(env.now),
            ]
        }
    }

    /// Takes the acknowledgment of the opening of the account.
    pub fn on_open_ica(self, ack: OpenAckVersion, env: &Env) -> (res: ContractResult<
        Response<BuyAssetSwap>,
    >)
        requires
            env.inv(),
        ensures
            self.spec_on_open_ica(ack, *env, res),
    {
        let emitter: Emitter = Emitter::of_type(EventKind::Lease(Type::OpenIcaAccount)).emit(
            Attribute::Id(self.new_lease.addr.clone()),
        ).emit_tx_info(env.now);
        assert(emitter.attributes@ =~= seq![
            Attribute::Id(self.new_lease.addr),
            Attribute::At(env.now),
        ]);
        match IcaConnector::new(self).on_open_ica(ack, env) {
            Err(Error::Ica(error)) => Err(ContractError::Ica(error)),
            Err(error) => Err(ContractError::Dex(error)),
            Ok(entered) => {
                let mut response: MessageResponse = entered.response;
                response.events.push(emitter);
                assert(response.events@ =~= seq![emitter]);
                Ok(Response::from(response, entered.next_state))
            },
        }
    }

    /// What `msg` makes of the opening lease: a repayment and a closing are
    /// refused, an alarm changes nothing and sends nothing.
    pub open spec fn spec_execute(
        self,
        msg: ExecuteMsg,
        res: ContractResult<Response<OpenIcaAccount>>,
    ) -> bool {
        match msg {
            ExecuteMsg::Repay => res == Err::<Response<OpenIcaAccount>, ContractError>(
                ContractError::UnsupportedOperation(Operation::Repay),
            ),
            ExecuteMsg::Close => res == Err::<Response<OpenIcaAccount>, ContractError>(
                ContractError::UnsupportedOperation(Operation::Close),
            ),
            ExecuteMsg::PriceAlarm | ExecuteMsg::TimeAlarm(_) => {
                &&& res.is_ok()
                &&& res.unwrap().next_state == self
                &&& res.unwrap().response.messages@ == Seq::<Msg>::empty()
                &&& res.unwrap().response.events@ == Seq::<Emitter>::empty()
            },
        }
    }

    /// Takes a command or an alarm.
    pub fn execute(self, env: &Env, info: MessageInfo, msg: ExecuteMsg) -> (res: ContractResult<
        Response<OpenIcaAccount>,
    >)
        ensures
            self.spec_execute(msg, res),
    {
        match msg {
            ExecuteMsg::Repay => Err(ContractError::UnsupportedOperation(Operation::Repay)),
            ExecuteMsg::Close => Err(ContractError::UnsupportedOperation(Operation::Close)),
            ExecuteMsg::PriceAlarm | ExecuteMsg::TimeAlarm(_) => Ok(
                Response::from(MessageResponse::default(), self),
            ),
        }
    }

    /// The state of the lease as it is reported.
    pub fn state(self, now: Timestamp) -> (res: ContractResult<StateResponse>)
        ensures
            res == Ok::<StateResponse, ContractError>(
                StateResponse::Opening {
                    downpayment: self.downpayment,
                    loan: self.loan,
                    step: OpeningTrx::OpenIcaAccount,
                },
            ),
    {
        Ok(
            StateResponse::Opening {
                downpayment: self.downpayment,
                loan: self.loan,
                step: OpeningTrx::OpenIcaAccount,
            },
        )
    }
}

impl DexConnectable for OpenIcaAccount {
    open spec fn spec_dex(&self) -> ConnectionParams {
        self.dex
    }

    fn dex(&self) -> (res: &ConnectionParams) {
        &self.dex
    }
}

impl IcaConnectee for OpenIcaAccount {
    type State = BuyAssetSwap;

    /// Once the account is there the asset is bought with what it holds.
    open spec fn spec_connected(self, ica_account: Account) -> BuyAssetSwap {
        SwapExactIn {
            spec: BuyAsset {
                form: self.new_lease,
                account: ica_account,
                downpayment: self.downpayment,
                loan: self.loan,
            },
            _state_enum: core::marker::PhantomData,
        }
    }

    fn connected(self, ica_account: Account) -> (res: BuyAssetSwap) {
        SwapExactIn {
            spec: BuyAsset::new(self.new_lease, ica_account, self.downpayment, self.loan),
            _state_enum: core::marker::PhantomData,
        }
    }
}

} // verus!
