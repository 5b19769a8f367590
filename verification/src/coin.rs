//! Currencies, currency groups and amounts tagged with their currency.
use vstd::prelude::*;

verus! {

/// The integer an amount of coins is counted in.
pub type Amount = u128;

/// The currencies the protocol knows.
#[derive(Clone, Copy, PartialEq, Eq, Structural, Debug)]
pub enum Currency {
    Nls,
    Usdc,
    Dai,
    Atom,
    Osmo,
    Weth,
    Wbtc,
    Cro,
}

impl Currency {
    /// The name of the currency within the protocol.
    pub open spec fn spec_ticker(self) -> &'static str {
        match self {
            Currency::Nls => "unls",
            Currency::Usdc => "uusdc",
            Currency::Dai => "udai",
            Currency::Atom => "uatom",
            Currency::Osmo => "uosmo",
            Currency::Weth => "uweth",
            Currency::Wbtc => "uwbtc",
            Currency::Cro => "ucro",
        }
    }

    /// The name of the currency within the protocol.
    pub fn ticker(self) -> (res: &'static str)
        ensures
            res == self.spec_ticker(),
    {
        match self {
            Currency::Nls => "unls",
            Currency::Usdc => "uusdc",
            Currency::Dai => "udai",
            Currency::Atom => "uatom",
            Currency::Osmo => "uosmo",
            Currency::Weth => "uweth",
            Currency::Wbtc => "uwbtc",
            Currency::Cro => "ucro",
        }
    }

    /// The name of the currency on the remote venue.
    pub open spec fn spec_dex_symbol(self) -> &'static str {
        match self {
            Currency::Nls => "ibc/dex_unls",
            Currency::Usdc => "ibc/dex_uusdc",
            Currency::Dai => "ibc/dex_udai",
            Currency::Atom => "ibc/dex_uatom",
            Currency::Osmo => "ibc/dex_uosmo",
            Currency::Weth => "ibc/dex_uweth",
            Currency::Wbtc => "ibc/dex_uwbtc",
            Currency::Cro => "ibc/dex_ucro",
        }
    }

    /// The name of the currency on the remote venue.
    pub fn dex_symbol(self) -> (res: &'static str)
        ensures
            res == self.spec_dex_symbol(),
    {
        match self {
            Currency::Nls => "ibc/dex_unls",
            Currency::Usdc => "ibc/dex_uusdc",
            Currency::Dai => "ibc/dex_udai",
            Currency::Atom => "ibc/dex_uatom",
            Currency::Osmo => "ibc/dex_uosmo",
            Currency::Weth => "ibc/dex_uweth",
            Currency::Wbtc => "ibc/dex_uwbtc",
            Currency::Cro => "ibc/dex_ucro",
        }
    }
}

/// A closed set of currencies that a coin may be required to belong to.
#[derive(Clone, Copy, PartialEq, Eq, Structural, Debug)]
pub enum Group {
    /// The native currency of the local network.
    Native,
    /// The currencies liquidity pools lend in.
    Lpns,
    /// The currencies of leased assets.
    Lease,
    /// Every currency a customer may pay in: the three groups above.
    Payment,
}

impl Group {
    /// Whether `currency` belongs to the group.
    pub open spec fn spec_contains(self, currency: Currency) -> bool {
        match self {
            Group::Native => currency == Currency::Nls,
            Group::Lpns => currency == Currency::Usdc || currency == Currency::Dai,
            Group::Lease => currency == Currency::Atom || currency == Currency::Osmo || currency
                == Currency::Weth || currency == Currency::Wbtc || currency == Currency::Cro,
            Group::Payment => true,
        }
    }

    /// Whether `currency` belongs to the group.
    pub fn contains(self, currency: Currency) -> (res: bool)
        ensures
            res == self.spec_contains(currency),
    {
        match self {
            Group::Native => matches!(currency, Currency::Nls),
            Group::Lpns => matches!(currency, Currency::Usdc | Currency::Dai),
            Group::Lease => matches!(
                currency,
                Currency::Atom | Currency::Osmo | Currency::Weth | Currency::Wbtc | Currency::Cro
            ),
            Group::Payment => true,
        }
    }
}

/// An amount of one currency, the currency known at run time.
#[derive(Clone, Copy, PartialEq, Eq, Structural, Debug)]
pub struct CoinDTO {
    pub amount: Amount,
    pub currency: Currency,
}

/// Why a coin could not be made.
#[derive(Clone, Copy, PartialEq, Eq, Structural, Debug)]
pub enum CoinError {
    /// The currency is not of the group that was asked for.
    UnexpectedCurrency { currency: Currency, group: Group },
}

impl CoinDTO {
    /// `amount` of `currency`.
    pub fn new(amount: Amount, currency: Currency) -> (res: Self)
        ensures
            res == (CoinDTO { amount, currency }),
    {
        CoinDTO { amount, currency }
    }

    /// The amount of the coin.
    pub fn amount(&self) -> (res: Amount)
        ensures
            res == self.amount,
    {
        self.amount
    }

    /// The currency of the coin.
    pub fn currency(&self) -> (res: Currency)
        ensures
            res == self.currency,
    {
        self.currency
    }

    /// Whether the coin holds nothing.
    pub fn is_zero(&self) -> (res: bool)
        ensures
            res == (self.amount == 0),
    {
        self.amount == 0
    }
}

/// `amount` of `currency`, which has to belong to `group`.
pub fn from_amount_ticker(amount: Amount, currency: Currency, group: Group) -> (res: Result<
    CoinDTO,
    CoinError,
>)
    ensures
        group.spec_contains(currency) ==> res == Ok::<CoinDTO, CoinError>(
            (CoinDTO { amount, currency }),
        ),
        !group.spec_contains(currency) ==> res == Err::<CoinDTO, CoinError>(
            (CoinError::UnexpectedCurrency { currency, group }),
        ),
{
    if group.contains(currency) {
        Ok(CoinDTO { amount, currency })
    } else {
        Err(CoinError::UnexpectedCurrency { currency, group })
    }
}

/// Something to do with a coin whose currency is not known before.
pub trait WithCoin {
    type Output;

    type Error;

    /// Does it with `coin`.
    fn on(&self, coin: CoinDTO) -> Result<Self::Output, Self::Error>;
}

/// Something to do with a currency that is not known before.
pub trait AnyVisitor: Sized {
    type Output;

    type Error;

    /// Does it with `currency`.
    fn on(self, currency: Currency) -> Result<Self::Output, Self::Error>;
}

/// `amount` of `currency`.
pub fn funds(amount: Amount, currency: Currency) -> (res: CoinDTO)
    ensures
        res == (CoinDTO { amount, currency }),
{
    CoinDTO { amount, currency }
}

/// Tells whether a coin is the one that is expected.
#[derive(Clone, Copy, PartialEq, Eq, Structural, Debug)]
pub struct Expect(pub CoinDTO);

impl Expect {
    /// Whether `coin` is of the expected currency and amount.
    pub fn matches(&self, coin: CoinDTO) -> (res: bool)
        ensures
            res == (coin == self.0),
    {
        coin.currency == self.0.currency && coin.amount == self.0.amount
    }
}

impl WithCoin for Expect {
    type Output = bool;

    type Error = CoinError;

    fn on(&self, coin: CoinDTO) -> (res: Result<bool, CoinError>)
        ensures
            res == Ok::<bool, CoinError>(coin == self.0),
    {
        Ok(self.matches(coin))
    }
}

} // verus!
