//! Visiting the coin at one position of a task.
use vstd::prelude::*;
use crate::coin::CoinDTO;
use crate::swap_task::{spec_on_coins, CoinVisitor, CoinsNb, IterNext, IterState, SwapTask};

verus! {

/// Wraps a visitor so that it is shown only the coin at one position: the
/// counter tells how many coins are still to be passed by.
pub struct CoinsIndexVisitor<V> {
    pub coins_left: CoinsNb,
    pub visitor: V,
}

impl<V: CoinVisitor<Result = ()>> View for CoinsIndexVisitor<V> {
    type V = (CoinsNb, V::V);

    open spec fn view(&self) -> (CoinsNb, V::V) {
        (self.coins_left, self.visitor@)
    }
}

impl<V: CoinVisitor<Result = ()>> CoinsIndexVisitor<V> {
    /// Whether the next coin is the one to show.
    pub fn at_coin(&self) -> (res: bool)
        ensures
            res == (self.coins_left == 0),
    {
        self.coins_left == 0
    }

    /// Passes one coin by.
    pub fn next_coin(&mut self)
        requires
            old(self).coins_left != 0,
        ensures
            final(self).coins_left == old(self).coins_left - 1,
            final(self).visitor == old(self).visitor,
    {
        self.coins_left = self.coins_left - 1;
    }
}

impl<V: CoinVisitor<Result = ()>> CoinVisitor for CoinsIndexVisitor<V> {
    type Result = IterNext;

    type Error = V::Error;

    open spec fn spec_visit(state: (CoinsNb, V::V), coin: CoinDTO) -> (
        (CoinsNb, V::V),
        Result<IterNext, V::Error>,
    ) {
        if state.0 == 0 {
            let (visited, answer) = V::spec_visit(state.1, coin);
            (
                (state.0, visited),
                match answer {
                    Ok(_) => Ok(IterNext::Stop),
                    Err(error) => Err(error),
                },
            )
        } else {
            (((state.0 - 1) as CoinsNb, state.1), Ok(IterNext::Continue))
        }
    }

    fn visit(&mut self, coin: &CoinDTO) -> (res: Result<IterNext, V::Error>) {
        if self.at_coin() {
            match self.visitor.visit(coin) {
                Ok(_) => Ok(IterNext::Stop),
                Err(error) => Err(error),
            }
        } else {
            self.next_coin();
            Ok(IterNext::Continue)
        }
    }
}

/// What showing the coin at position `coin_index` of `coins` to a visitor in
/// state `visitor` comes to: the visitor sees that coin and no other, its
/// failure is passed on, and the traversal is complete if the coin was the
/// last one. Past the last coin the visitor sees nothing.
pub open spec fn spec_visit_at_index<V: CoinVisitor<Result = ()>>(
    coins: Seq<CoinDTO>,
    coin_index: CoinsNb,
    visitor: V::V,
) -> (V::V, Result<IterState, V::Error>) {
    if coin_index < coins.len() {
        let (visited, answer) = V::spec_visit(visitor, coins[coin_index as int]);
        (
            visited,
            match answer {
                Ok(_) => Ok(
                    if coin_index + 1 == coins.len() {
                        IterState::Complete
                    } else {
                        IterState::Incomplete
                    },
                ),
                Err(error) => Err(error),
            },
        )
    } else {
        (visitor, Ok(IterState::Complete))
    }
}

/// Traversing a coin list with the index adapter set to position `k` is the
/// same as showing the wrapped visitor the `k`-th coin alone: the same coin
/// is visited, with the same outcome, and every other coin is only passed
/// by.
pub proof fn lemma_index_visit_is_direct_visit<V: CoinVisitor<Result = ()>>(
    coins: Seq<CoinDTO>,
    coin_index: CoinsNb,
    visitor: V::V,
)
    ensures
        spec_on_coins::<CoinsIndexVisitor<V>>(coins, (coin_index, visitor)).0.1
            == spec_visit_at_index::<V>(coins, coin_index, visitor).0,
        spec_on_coins::<CoinsIndexVisitor<V>>(coins, (coin_index, visitor)).1
            == spec_visit_at_index::<V>(coins, coin_index, visitor).1,
        coin_index < coins.len() ==> spec_on_coins::<CoinsIndexVisitor<V>>(
            coins,
            (coin_index, visitor),
        ).0.0 == 0,
        coin_index >= coins.len() ==> spec_on_coins::<CoinsIndexVisitor<V>>(
            coins,
            (coin_index, visitor),
        ).0.0 == coin_index - coins.len(),
    decreases coins.len(),
{
    if coins.len() > 0 && coin_index > 0 {
        let passed: CoinsNb = (coin_index - 1) as CoinsNb;
        lemma_index_visit_is_direct_visit::<V>(coins.skip(1), passed, visitor);
        if coin_index < coins.len() {
            assert(coins.skip(1)[passed as int] == coins[coin_index as int]);
        }
    }
}

/// Shows the coin at position `coin_index` of the task to `visitor` and
/// hands the visitor back. The coins before it are passed by; the coins
/// after it are not reached.
pub fn visit_at_index<T: SwapTask, V: CoinVisitor<Result = ()>>(
    spec: &T,
    coin_index: CoinsNb,
    visitor: V,
) -> (res: (V, Result<IterState, V::Error>))
    ensures
        (res.0@, res.1) == spec_visit_at_index::<V>(spec.spec_coins(), coin_index, visitor@),
{
    proof {
        lemma_index_visit_is_direct_visit::<V>(spec.spec_coins(), coin_index, visitor@);
    }
    let mut coins_visitor: CoinsIndexVisitor<V> = CoinsIndexVisitor {
        coins_left: coin_index,
        visitor,
    };
    let res = spec.on_coins(&mut coins_visitor);
    (coins_visitor.visitor, res)
}

} // verus!
