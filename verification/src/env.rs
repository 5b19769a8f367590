//! What the host runtime tells the contract with every invocation.
use vstd::prelude::*;
use crate::address::Addr;
use crate::coin::{CoinDTO, Currency};
use crate::loan::LppLoan;
use crate::timestamp::Timestamp;

verus! {

/// The circumstances of an invocation: the time of the block, the address of
/// the contract, what its own account holds and what the pool reports on its
/// loan, which is nothing once the loan is closed.
#[derive(PartialEq, Eq, Debug)]
pub struct Env {
    pub now: Timestamp,
    pub contract: Addr,
    pub balances: Vec<CoinDTO>,
    pub lpp_loan: Option<LppLoan>,
}

/// The amount of `currency` that the first coin of that currency among
/// `balances` holds; zero if there is none.
pub open spec fn spec_balance_of(balances: Seq<CoinDTO>, currency: Currency) -> u128
    decreases balances.len(),
{
    if balances.len() == 0 {
        0
    } else if balances[0].currency == currency {
        balances[0].amount
    } else {
        spec_balance_of(balances.skip(1), currency)
    }
}

impl Env {
    /// The protocol can look ahead from the time of the block.
    pub open spec fn inv(&self) -> bool {
        self.now.spec_allows_lookahead()
    }

    /// What the contract's account holds of `currency`.
    pub open spec fn spec_balance(&self, currency: Currency) -> u128 {
        spec_balance_of(self.balances@, currency)
    }

    /// The circumstances of an invocation at `now` of the contract at
    /// `contract` whose account holds `balances` and on whose loan the pool
    /// reports `lpp_loan`.
    pub fn new(
        now: Timestamp,
        contract: Addr,
        balances: Vec<CoinDTO>,
        lpp_loan: Option<LppLoan>,
    ) -> (res: Self)
        ensures
            res == (Env { now, contract, balances, lpp_loan }),
    {
        Env { now, contract, balances, lpp_loan }
    }

    /// What the contract's account holds of `currency`.
    pub fn balance(&self, currency: Currency) -> (res: u128)
        ensures
            res == self.spec_balance(currency),
    {
        let mut index: usize = 0;
        assert(self.balances@.skip(0) == self.balances@);
        while index < self.balances.len()
            invariant
                index <= self.balances@.len(),
                spec_balance_of(self.balances@, currency) == spec_balance_of(
                    self.balances@.skip(index as int),
                    currency,
                ),
            decreases self.balances@.len() - index,
        {
            proof {
                assert(self.balances@.skip(index as int)[0] == self.balances@[index as int]);
                assert(self.balances@.skip(index as int).skip(1) == self.balances@.skip(
                    index as int + 1,
                ));
            }
            if self.balances[index].currency == currency {
                return self.balances[index].amount;
            }
            index = index + 1;
        }
        0
    }
}

} // verus!
