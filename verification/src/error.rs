//! Why a step of the cross-chain protocol failed.
use vstd::prelude::*;
use crate::coin::CoinError;
use crate::ica::IcaError;
use crate::msg_data::DecodeError;

verus! {

/// Why a step of the cross-chain protocol failed.
#[derive(Clone, Copy, PartialEq, Eq, Structural, Debug)]
pub enum Error {
    /// The reply could not be understood.
    Decode(DecodeError),
    /// The reply holds more results than the task has coins.
    ExtraResponses,
    /// The amounts of the reply add up to more than 128 bits hold.
    AmountOverflow,
    /// The output currency is not of the group the task asks for.
    Coin(CoinError),
    /// The state does not take part in this operation.
    UnsupportedOperation,
    /// The time to be woken up at is not representable.
    TimeAlarmError,
    /// The remote account could not be identified.
    Ica(IcaError),
}

} // verus!
