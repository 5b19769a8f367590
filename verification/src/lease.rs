//! What a lease holds from the moment its asset is bought.
use vstd::prelude::*;
use crate::address::Addr;
use crate::coin::{CoinDTO, Currency};
use crate::connection::Account;
use crate::loan::Loan;

verus! {

/// An open lease: the asset it holds on the remote venue, the loan that paid
/// for it and who and what it deals with.
#[derive(PartialEq, Eq, Debug)]
pub struct Lease {
    /// The address of the lease itself.
    pub addr: Addr,
    /// Who the lease belongs to.
    pub customer: Addr,
    /// The asset the lease holds.
    pub amount: CoinDTO,
    /// The loan of the lease.
    pub loan: Loan,
    /// The currency of the loan.
    pub lpn: Currency,
    /// The pool the loan was taken from.
    pub lpp: Addr,
    /// The remote account that holds the asset.
    pub dex: Account,
    /// The alarm service of the lease.
    pub time_alarms: Addr,
}

impl Lease {
    /// The loan is well-formed.
    pub open spec fn wf(&self) -> bool {
        self.loan.wf()
    }
}

} // verus!
