//! Why a lease refuses or fails a request.
use vstd::prelude::*;
use crate::api::Operation;
use crate::coin::Currency;
use crate::error::Error as DexError;
use crate::ica::IcaError;
use crate::loan::LoanError;

verus! {

/// Why a lease refuses or fails a request.
#[derive(Clone, Copy, PartialEq, Eq, Structural, Debug)]
pub enum ContractError {
    /// The state the lease is in does not support the command.
    UnsupportedOperation(Operation),
    /// No funds came with a repayment.
    NoPaymentError,
    /// Funds of more than one currency came with a repayment.
    UnexpectedFunds,
    /// The repayment is not in the currency of the loan.
    PaymentCurrency { expected: Currency, found: Currency },
    /// The accrual engine failed.
    Loan(LoanError),
    /// A step of the cross-chain protocol failed.
    Dex(DexError),
    /// The remote account could not be identified.
    Ica(IcaError),
    /// The state does not await the outcome that has come.
    UnexpectedOutcome,
}

/// The outcome of a request to a lease.
pub type ContractResult<T> = Result<T, ContractError>;

} // verus!
