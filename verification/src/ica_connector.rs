//! The step that opens the interchain account: it asks for the account,
//! awaits the acknowledgment of the handshake and, once the account is
//! there, enters the state that works with it.
use vstd::prelude::*;
use crate::batch::{Batch, Msg, Response as MessageResponse};
use crate::connection::{Account, ConnectionParams};
use crate::env::Env;
use crate::error::Error;
use crate::event::Emitter;
use crate::ica::{register_account, HostAccount, OpenAckVersion, ICA_ACCOUNT_ID};
use crate::response::{ContinueResult, DexConnectable, Enterable, Response};
use crate::timestamp::Timestamp;

verus! {

/// A state that waits for its interchain account.
pub trait IcaConnectee: DexConnectable + Sized {
    /// The state that works with the account.
    type State: Enterable;

    /// The state that works with `ica_account`.
    spec fn spec_connected(self, ica_account: Account) -> Self::State;

    /// Moves on to the state that works with `ica_account`.
    fn connected(self, ica_account: Account) -> (res: Self::State)
        ensures
            res == self.spec_connected(ica_account),
            res.enterable_inv(),
    ;
}

/// The opening of the interchain account of `connectee`.
#[derive(PartialEq, Eq, Debug)]
pub struct IcaConnector<Connectee> {
    pub connectee: Connectee,
}

impl<Connectee: IcaConnectee> IcaConnector<Connectee> {
    /// The opening of the account of `connectee`.
    pub fn new(connectee: Connectee) -> (res: Self)
        ensures
            res == (IcaConnector { connectee }),
    {
        IcaConnector { connectee }
    }

    /// The account that the acknowledgment `ack` names: it belongs to the
    /// contract of `env` and is reached over the connectee's connection.
    pub open spec fn spec_account(self, ack: OpenAckVersion, env: Env) -> Account {
        Account {
            owner: env.contract,
            host: HostAccount { address: ack.address },
            dex: self.connectee.spec_dex(),
        }
    }

    /// Whether `res` is what the acknowledgment `ack` of the handshake
    /// yields. An acknowledgment without an address fails. Otherwise the
    /// state that works with the account is entered, its instructions are
    /// passed on and the machine goes on with it; if it cannot be entered
    /// its error is passed on.
    pub open spec fn spec_on_open_ica(
        self,
        ack: OpenAckVersion,
        env: Env,
        res: ContinueResult<Connectee::State>,
    ) -> bool {
        if ack.address@.len() == 0 {
            res == Err::<Response<Connectee::State>, Error>(
                Error::Ica(crate::ica::IcaError::InvalidICAHostAccount),
            )
        } else {
            let next = self.connectee.spec_connected(self.spec_account(ack, env));
            match res {
                Ok(response) => {
                    &&& response.next_state == next
                    &&& response.response.events@ == Seq::<Emitter>::empty()
                    &&& next.spec_enter(env.now, Ok(response.response.messages))
                },
                Err(error) => next.spec_enter(env.now, Err(error)),
            }
        }
    }

    /// Takes the acknowledgment of the handshake.
    pub fn on_open_ica(self, ack: OpenAckVersion, env: &Env) -> (res: ContinueResult<
        Connectee::State,
    >)
        requires
            env.inv(),
        ensures
            self.spec_on_open_ica(ack, *env, res),
    {
        let host: HostAccount = match ack.into_host_account() {
            Err(error) => { return Err(Error::Ica(error)); },
            Ok(host) => host,
        };
        let account: Account = Account::new(
            env.contract.clone(),
            host,
            self.connectee.dex().clone(),
        );
        let next: Connectee::State = self.connectee.connected(account);
        match next.enter(env.now) {
            Err(error) => Err(error),
            Ok(batch) => Ok(
                Response { response: MessageResponse::messages_only(batch), next_state: next },
            ),
        }
    }
}

impl<Connectee: IcaConnectee> Enterable for IcaConnector<Connectee> {
    open spec fn enterable_inv(&self) -> bool {
        true
    }

    /// Entering asks for the account over the connectee's connection.
    open spec fn spec_enter(&self, now: Timestamp, res: Result<Batch, Error>) -> bool {
        &&& res.is_ok()
        &&& res.unwrap()@ == seq![
            Msg::RegisterInterchainAccount {
                connection_id: self.connectee.spec_dex().connection_id,
                interchain_account_id: ICA_ACCOUNT_ID,
            },
        ]
    }

    fn enter(&self, now: Timestamp) -> (res: Result<Batch, Error>) {
        Ok(register_account(self.connectee.dex().connection_id.clone()))
    }
}

impl<Connectee: IcaConnectee> DexConnectable for IcaConnector<Connectee> {
    open spec fn spec_dex(&self) -> ConnectionParams {
        self.connectee.spec_dex()
    }

    fn dex(&self) -> (res: &ConnectionParams) {
        self.connectee.dex()
    }
}

} // verus!
