//! Traversals of one and of two coins, and a visitor that records what it
//! is shown.
use vstd::prelude::*;
use crate::coin::CoinDTO;
use crate::error::Error;
use crate::swap_task::{spec_on_coins, CoinVisitor, IterNext, IterState};

verus! {

/// Shows the one coin `coin` to `visitor`.
pub fn on_coin<V: CoinVisitor<Result = IterNext>>(coin: &CoinDTO, visitor: &mut V) -> (res: Result<
    IterState,
    V::Error,
>)
    ensures
        (final(visitor)@, res) == spec_on_coins::<V>(seq![*coin], old(visitor)@),
{
    proof {
        reveal_with_fuel(spec_on_coins, 3);
        assert(seq![*coin].skip(1) =~= Seq::<CoinDTO>::empty());
    }
    match visitor.visit(coin) {
        Ok(_) => Ok(IterState::Complete),
        Err(error) => Err(error),
    }
}

/// Shows `coin1` and then, unless the visitor stops or fails, `coin2` to
/// `visitor`.
pub fn on_coins<V: CoinVisitor<Result = IterNext>>(
    coin1: &CoinDTO,
    coin2: &CoinDTO,
    visitor: &mut V,
) -> (res: Result<IterState, V::Error>)
    ensures
        (final(visitor)@, res) == spec_on_coins::<V>(seq![*coin1, *coin2], old(visitor)@),
{
    proof {
        reveal_with_fuel(spec_on_coins, 3);
        assert(seq![*coin1, *coin2].skip(1) =~= seq![*coin2]);
    }
    match visitor.visit(coin1) {
        Err(error) => Err(error),
        Ok(IterNext::Continue) => on_coin(coin2, visitor),
        Ok(IterNext::Stop) => Ok(IterState::Incomplete),
    }
}

/// Records the amounts of the first two coins it is shown. A third coin is
/// an error.
#[derive(Clone, Copy, PartialEq, Eq, Structural, Debug)]
pub struct TestVisitor {
    pub first: Option<u128>,
    pub second: Option<u128>,
}

impl View for TestVisitor {
    type V = TestVisitor;

    open spec fn view(&self) -> TestVisitor {
        *self
    }
}

impl TestVisitor {
    /// A visitor that has been shown nothing.
    pub fn new() -> (res: Self)
        ensures
            res == (TestVisitor { first: None, second: None }),
    {
        TestVisitor { first: None, second: None }
    }

    /// Whether the first coin shown held `amount`.
    pub fn first_visited(&self, amount: u128) -> (res: bool)
        ensures
            res == (self.first == Some(amount)),
    {
        match self.first {
            Some(seen) => seen == amount,
            None => false,
        }
    }

    /// Whether no coin has been shown.
    pub fn first_not_visited(&self) -> (res: bool)
        ensures
            res == self.first.is_none(),
    {
        self.first.is_none()
    }

    /// Whether the second coin shown held `amount`.
    pub fn second_visited(&self, amount: u128) -> (res: bool)
        ensures
            res == (self.second == Some(amount)),
    {
        match self.second {
            Some(seen) => seen == amount,
            None => false,
        }
    }

    /// Whether fewer than two coins have been shown.
    pub fn second_not_visited(&self) -> (res: bool)
        ensures
            res == self.second.is_none(),
    {
        self.second.is_none()
    }
}

impl CoinVisitor for TestVisitor {
    type Result = ();

    type Error = Error;

    open spec fn spec_visit(state: TestVisitor, coin: CoinDTO) -> (TestVisitor, Result<(), Error>) {
        if state.first.is_none() {
            (TestVisitor { first: Some(coin.amount), second: state.second }, Ok(()))
        } else if state.second.is_none() {
            (TestVisitor { first: state.first, second: Some(coin.amount) }, Ok(()))
        } else {
            (state, Err(Error::UnsupportedOperation))
        }
    }

    fn visit(&mut self, coin: &CoinDTO) -> (res: Result<(), Error>) {
        if self.first.is_none() {
            self.first = Some(coin.amount);
            Ok(())
        } else if self.second.is_none() {
            self.second = Some(coin.amount);
            Ok(())
        } else {
            Err(Error::UnsupportedOperation)
        }
    }
}

} // verus!
