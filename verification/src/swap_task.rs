//! A declared exchange of several coins for one currency, and the protocol
//! by which its coins are visited one at a time, in the declared order.
use vstd::prelude::*;
use crate::address::Addr;
use crate::coin::{CoinDTO, Currency, Group};
use crate::connection::Account;
use crate::event::Type;
use crate::timestamp::Timestamp;

verus! {

/// The integer the coins of a task are counted in.
pub type CoinsNb = u8;

/// What a visitor asks for after it has seen a coin.
#[derive(Clone, Copy, PartialEq, Eq, Structural, Debug)]
pub enum IterNext {
    Stop,
    Continue,
}

/// Whether a traversal reached the last coin.
#[derive(Clone, Copy, PartialEq, Eq, Structural, Debug)]
pub enum IterState {
    Complete,
    Incomplete,
}

/// Something that is shown the coins of a task one at a time.
///
/// A visit is a function of the visitor's state and the coin: it yields the
/// visitor's next state and either what the visitor asks for or an error.
pub trait CoinVisitor: View + Sized {
    type Result;

    type Error;

    /// The visitor's state after it has seen `coin` in `state`, and its
    /// answer.
    spec fn spec_visit(state: Self::V, coin: CoinDTO) -> (
        Self::V,
        Result<Self::Result, Self::Error>,
    );

    /// Shows `coin` to the visitor.
    fn visit(&mut self, coin: &CoinDTO) -> (res: Result<Self::Result, Self::Error>)
        ensures
            (final(self)@, res) == Self::spec_visit(old(self)@, *coin),
    ;
}

/// The traversal of `coins` by a visitor in state `visitor`: the coins are
/// shown in order until the visitor stops or fails. A failure ends the
/// traversal and is passed on. The traversal is complete if the last coin
/// was shown.
pub open spec fn spec_on_coins<V: CoinVisitor<Result = IterNext>>(
    coins: Seq<CoinDTO>,
    visitor: V::V,
) -> (V::V, Result<IterState, V::Error>)
    decreases coins.len(),
{
    if coins.len() == 0 {
        (visitor, Ok(IterState::Complete))
    } else {
        let (next, answer) = V::spec_visit(visitor, coins[0]);
        match answer {
            Err(error) => (next, Err(error)),
            Ok(IterNext::Stop) => (
                next,
                Ok(
                    if coins.len() == 1 {
                        IterState::Complete
                    } else {
                        IterState::Incomplete
                    },
                ),
            ),
            Ok(IterNext::Continue) => spec_on_coins::<V>(coins.skip(1), next),
        }
    }
}

/// Shows `coins` to `visitor` in order until it stops or fails.
pub fn on_coins<V: CoinVisitor<Result = IterNext>>(coins: &Vec<CoinDTO>, visitor: &mut V) -> (res:
    Result<IterState, V::Error>)
    ensures
        (final(visitor)@, res) == spec_on_coins::<V>(coins@, old(visitor)@),
{
    let mut index: usize = 0;
    assert(coins@.skip(0) == coins@);
    while index < coins.len()
        invariant
            index <= coins.len(),
            spec_on_coins::<V>(coins@, old(visitor)@) == spec_on_coins::<V>(
                coins@.skip(index as int),
                visitor@,
            ),
        decreases coins.len() - index,
    {
        proof {
            assert(coins@.skip(index as int)[0] == coins@[index as int]);
            assert(coins@.skip(index as int).skip(1) == coins@.skip(index as int + 1));
        }
        match visitor.visit(&coins[index]) {
            Err(error) => {
                return Err(error);
            },
            Ok(IterNext::Stop) => {
                if index + 1 == coins.len() {
                    return Ok(IterState::Complete);
                } else {
                    return Ok(IterState::Incomplete);
                }
            },
            Ok(IterNext::Continue) => {
                index = index + 1;
            },
        }
    }
    Ok(IterState::Complete)
}

/// A declared exchange: the coins to give, in order, and the currency to
/// get. The coin list is fixed once the task is made.
pub trait SwapTask: Sized {
    /// What finishing the task yields.
    type Result;

    /// The coins of the task in the declared order.
    spec fn spec_coins(&self) -> Seq<CoinDTO>;

    /// The currency the coins are exchanged for.
    spec fn spec_out_currency(&self) -> Currency;

    /// The group the output currency has to belong to.
    spec fn spec_out_group(&self) -> Group;

    /// The account the task's funds are held in.
    spec fn spec_dex_account(&self) -> Account;

    /// The alarm service of the task.
    spec fn spec_time_alarm(&self) -> Addr;

    /// The step of the life-cycle that the task belongs to.
    spec fn spec_label(&self) -> Type;

    /// What finishing the task with `amount_out` at `now` yields.
    spec fn spec_finish(self, amount_out: CoinDTO, now: Timestamp) -> Self::Result;

    /// A task has at least one coin and no more than its counter can count.
    open spec fn wf(&self) -> bool {
        0 < self.spec_coins().len() <= CoinsNb::MAX
    }

    fn label(&self) -> (res: Type)
        ensures
            res == self.spec_label(),
    ;

    fn dex_account(&self) -> (res: &Account)
        ensures
            *res == self.spec_dex_account(),
    ;

    fn time_alarm(&self) -> (res: &Addr)
        ensures
            *res == self.spec_time_alarm(),
    ;

    fn out_currency(&self) -> (res: Currency)
        ensures
            res == self.spec_out_currency(),
    ;

    fn out_group(&self) -> (res: Group)
        ensures
            res == self.spec_out_group(),
    ;

    /// Shows the coins of the task to `visitor` in the declared order until
    /// it stops or fails.
    fn on_coins<V: CoinVisitor<Result = IterNext>>(&self, visitor: &mut V) -> (res: Result<
        IterState,
        V::Error,
    >)
        ensures
            (final(visitor)@, res) == spec_on_coins::<V>(self.spec_coins(), old(visitor)@),
    ;

    /// Ends the task with the amount the exchange gave.
    fn finish(self, amount_out: CoinDTO, now: Timestamp) -> (res: Self::Result)
        ensures
            res == self.spec_finish(amount_out, now),
    ;
}

} // verus!
