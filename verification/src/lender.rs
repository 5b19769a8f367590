//! What a liquidity pool decides when a lender deposits or withdraws.
use vstd::prelude::*;
use crate::address::Addr;
use crate::batch::{Batch, Msg};
use crate::coin::{CoinDTO, Currency};

verus! {

/// Why the pool refuses a request.
#[derive(Clone, Copy, PartialEq, Eq, Structural, Debug)]
pub enum ContractError {
    /// No funds came with a deposit.
    NoFundsReceived,
    /// Funds of more than one currency came with a deposit.
    UnexpectedFunds,
    /// The funds are not in the currency of the pool.
    UnexpectedCurrency { expected: Currency, found: Currency },
    /// The deposit would bring the utilization below what the pool's rates
    /// allow.
    UtilizationBelowMinimalRates,
    /// A withdrawal of nothing was asked for.
    ZeroWithdrawFunds,
    /// The lender has no deposit.
    NoDeposit,
}

/// The outcome of a request to the pool.
pub type Result<T> = core::result::Result<T, ContractError>;

/// What a lender holds in the pool.
#[derive(Clone, Copy, PartialEq, Eq, Structural, Debug)]
pub struct BalanceResponse {
    pub balance: u128,
}

/// What a withdrawal takes out of a lender's deposit.
#[derive(Clone, Copy, PartialEq, Eq, Structural, Debug)]
pub struct Withdrawal {
    /// The rewards that leave with the last receipts of a deposit.
    pub maybe_reward: Option<CoinDTO>,
}

/// The deposit that came with `funds`: one coin, of the pool's currency
/// `lpn`, that fits the room `capacity` the pool has, if it has a limit.
pub open spec fn spec_try_deposit(funds: Seq<CoinDTO>, lpn: Currency, capacity: Option<u128>)
    -> Result<u128> {
    if funds.len() == 0 {
        Err(ContractError::NoFundsReceived)
    } else if funds.len() > 1 {
        Err(ContractError::UnexpectedFunds)
    } else if funds[0].currency != lpn {
        Err(ContractError::UnexpectedCurrency { expected: lpn, found: funds[0].currency })
    } else if capacity.is_some() && funds[0].amount > capacity.unwrap() {
        Err(ContractError::UtilizationBelowMinimalRates)
    } else {
        Ok(funds[0].amount)
    }
}

/// Decides on a deposit: returns the amount to deposit, or why the pool
/// refuses it.
pub fn try_deposit(funds: &Vec<CoinDTO>, lpn: Currency, capacity: Option<u128>) -> (res: Result<
    u128,
>)
    ensures
        res == spec_try_deposit(funds@, lpn, capacity),
{
    if funds.len() == 0 {
        return Err(ContractError::NoFundsReceived);
    }
    if funds.len() > 1 {
        return Err(ContractError::UnexpectedFunds);
    }
    let pending_deposit: CoinDTO = funds[0];
    if pending_deposit.currency != lpn {
        return Err(
            ContractError::UnexpectedCurrency { expected: lpn, found: pending_deposit.currency },
        );
    }
    let above_capacity: bool = match capacity {
        Some(room) => pending_deposit.amount > room,
        None => false,
    };
    if above_capacity {
        return Err(ContractError::UtilizationBelowMinimalRates);
    }
    Ok(pending_deposit.amount)
}

/// The instructions of a withdrawal: the payment goes to the lender, and so
/// does the reward if there is one and it is not zero.
pub open spec fn spec_withdraw_msgs(
    lender: Addr,
    payment_lpn: CoinDTO,
    maybe_reward: Option<CoinDTO>,
) -> Seq<Msg> {
    if maybe_reward.is_some() && maybe_reward.unwrap().amount != 0 {
        seq![
            Msg::BankSend { to: lender, amount: payment_lpn },
            Msg::BankSend { to: lender, amount: maybe_reward.unwrap() },
        ]
    } else {
        seq![Msg::BankSend { to: lender, amount: payment_lpn }]
    }
}

/// Decides on the withdrawal of `amount_nlpn` receipts by `lender`, for
/// which the pool pays `payment_lpn`. `withdrawal` is what the withdrawal
/// takes out of the lender's deposit, or nothing if the lender has none.
pub fn try_withdraw(
    lender: Addr,
    amount_nlpn: u128,
    payment_lpn: CoinDTO,
    withdrawal: Option<Withdrawal>,
) -> (res: Result<Batch>)
    ensures
        amount_nlpn == 0 ==> res == Err::<Batch, ContractError>(ContractError::ZeroWithdrawFunds),
        amount_nlpn != 0 && withdrawal.is_none() ==> res == Err::<Batch, ContractError>(
            ContractError::NoDeposit,
        ),
        amount_nlpn != 0 && withdrawal.is_some() ==> res.is_ok() && res.unwrap()@
            == spec_withdraw_msgs(lender, payment_lpn, withdrawal.unwrap().maybe_reward),
{
    if amount_nlpn == 0 {
        return Err(ContractError::ZeroWithdrawFunds);
    }
    let maybe_reward: Option<CoinDTO> = match withdrawal {
        None => { return Err(ContractError::NoDeposit); },
        Some(taken) => taken.maybe_reward,
    };
    let mut bank: Batch = Batch::default();
    bank.schedule_execute_no_reply(Msg::BankSend { to: lender.clone(), amount: payment_lpn });
    match maybe_reward {
        Some(reward) => {
            if reward.amount != 0 {
                bank.schedule_execute_no_reply(Msg::BankSend { to: lender, amount: reward });
            }
        },
        None => {},
    }
    Ok(bank)
}

/// What a lender holds in the pool: the receipts of their deposit, or
/// nothing if they have none.
pub fn query_balance(balance_nlpn: Option<u128>) -> (res: Result<BalanceResponse>)
    ensures
        res == Ok::<BalanceResponse, ContractError>(
            (BalanceResponse {
                balance: match balance_nlpn {
                    Some(balance) => balance,
                    None => 0,
                },
            }),
        ),
{
    let balance: u128 = match balance_nlpn {
        Some(balance) => balance,
        None => 0,
    };
    Ok(BalanceResponse { balance })
}

} // verus!
