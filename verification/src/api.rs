//! What a lease is told and what it answers.
use vstd::prelude::*;
use crate::address::Addr;
use crate::coin::CoinDTO;
use crate::timestamp::Timestamp;

verus! {

/// The commands and alarms a lease takes.
#[derive(Clone, Copy, PartialEq, Eq, Structural, Debug)]
pub enum ExecuteMsg {
    /// Pay towards the loan with the funds sent along.
    Repay,
    /// Close the lease and move what is left of it back.
    Close,
    /// A price the lease asked to be told of was reached.
    PriceAlarm,
    /// A point in time the lease asked to be woken up at has come.
    TimeAlarm(Timestamp),
}

/// Who sent a command and what funds came with it.
#[derive(Clone, PartialEq, Eq, Debug)]
pub struct MessageInfo {
    pub sender: Addr,
    pub funds: Vec<CoinDTO>,
}

/// The step of the opening that is in progress.
#[derive(Clone, Copy, PartialEq, Eq, Structural, Debug)]
pub enum OpeningTrx {
    OpenIcaAccount,
    BuyAsset,
}

/// The step of the closing that is in progress.
#[derive(Clone, Copy, PartialEq, Eq, Structural, Debug)]
pub enum ClosingTrx {
    TransferInInit,
    TransferInFinish,
}

/// What a lease answers when asked for its state.
#[derive(Clone, Copy, PartialEq, Eq, Structural, Debug)]
pub enum StateResponse {
    /// The lease is being opened.
    Opening { downpayment: CoinDTO, loan: CoinDTO, step: OpeningTrx },
    /// The lease holds `amount`; nothing or a step of the closing is in
    /// progress.
    Paid { amount: CoinDTO, in_progress: Option<ClosingTrx> },
    /// The lease is closed.
    Closed,
}

/// The commands a state may refuse.
#[derive(Clone, Copy, PartialEq, Eq, Structural, Debug)]
pub enum Operation {
    Repay,
    Close,
}

impl Operation {
    /// The name of the command.
    pub open spec fn spec_as_str(self) -> &'static str {
        match self {
            Operation::Repay => "repay",
            Operation::Close => "close",
        }
    }

    /// The name of the command.
    pub fn as_str(self) -> (res: &'static str)
        ensures
            res == self.spec_as_str(),
    {
        match self {
            Operation::Repay => "repay",
            Operation::Close => "close",
        }
    }
}

} // verus!
