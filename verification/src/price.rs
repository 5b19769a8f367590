//! Prices: how much of a quote currency one pays for an amount of a base
//! currency.
use vstd::prelude::*;
use std::cmp::Ordering;
use crate::coin::{CoinDTO, Currency};
use crate::fractionable::{product_order, spec_product};

verus! {

/// Why a price could not be read as one of given currencies.
#[derive(Clone, Copy, PartialEq, Eq, Structural, Debug)]
pub enum PriceError {
    /// A coin of the price is of another currency than was asked for.
    UnexpectedCurrency { expected: Currency, found: Currency },
}

/// A price between two currencies known where it is used.
#[derive(Clone, Copy, PartialEq, Eq, Structural, Debug)]
pub struct Price {
    pub amount: u128,
    pub amount_quote: u128,
}

/// A price that carries its currencies: `amount_quote` is paid for `amount`.
#[derive(Clone, Copy, PartialEq, Eq, Structural, Debug)]
pub struct PriceDTO {
    pub amount: CoinDTO,
    pub amount_quote: CoinDTO,
}

impl PriceDTO {
    /// The price at which `quote` is paid for `base`.
    pub fn new(base: CoinDTO, quote: CoinDTO) -> (res: Self)
        ensures
            res == (PriceDTO { amount: base, amount_quote: quote }),
    {
        PriceDTO { amount: base, amount_quote: quote }
    }

    /// The amount that is priced.
    pub fn base(&self) -> (res: &CoinDTO)
        ensures
            *res == self.amount,
    {
        &self.amount
    }

    /// The amount that is paid.
    pub fn quote(&self) -> (res: &CoinDTO)
        ensures
            *res == self.amount_quote,
    {
        &self.amount_quote
    }

    /// The price between `base` and `quote`, which have to be the
    /// currencies the price carries.
    pub fn try_into_price(self, base: Currency, quote: Currency) -> (res: Result<
        Price,
        PriceError,
    >)
        ensures
            res == (if self.amount.currency != base {
                Err::<Price, PriceError>(
                    PriceError::UnexpectedCurrency { expected: base, found: self.amount.currency },
                )
            } else if self.amount_quote.currency != quote {
                Err::<Price, PriceError>(
                    PriceError::UnexpectedCurrency {
                        expected: quote,
                        found: self.amount_quote.currency,
                    },
                )
            } else {
                Ok::<Price, PriceError>(
                    (Price {
                        amount: self.amount.amount,
                        amount_quote: self.amount_quote.amount,
                    }),
                )
            }),
    {
        if self.amount.currency != base {
            Err(PriceError::UnexpectedCurrency { expected: base, found: self.amount.currency })
        } else if self.amount_quote.currency != quote {
            Err(
                PriceError::UnexpectedCurrency {
                    expected: quote,
                    found: self.amount_quote.currency,
                },
            )
        } else {
            Ok(Price { amount: self.amount.amount, amount_quote: self.amount_quote.amount })
        }
    }

    /// `price` between `base` and `quote`, with its currencies.
    pub fn from(price: Price, base: Currency, quote: Currency) -> (res: Self)
        ensures
            res == (PriceDTO {
                amount: CoinDTO { amount: price.amount, currency: base },
                amount_quote: CoinDTO { amount: price.amount_quote, currency: quote },
            }),
    {
        PriceDTO {
            amount: CoinDTO { amount: price.amount, currency: base },
            amount_quote: CoinDTO { amount: price.amount_quote, currency: quote },
        }
    }

    /// Whether `self` is lower than `other`: the quotients of the quote and
    /// the base amounts are compared by cross-multiplication, so that
    /// nothing is rounded.
    pub open spec fn spec_lt(self, other: PriceDTO) -> bool {
        spec_product(self.amount_quote.amount, other.amount.amount) < spec_product(
            self.amount.amount,
            other.amount_quote.amount,
        )
    }

    /// Whether `self` and `other` are the same ratio.
    pub open spec fn spec_same(self, other: PriceDTO) -> bool {
        spec_product(self.amount_quote.amount, other.amount.amount) == spec_product(
            self.amount.amount,
            other.amount_quote.amount,
        )
    }

    /// How `self` compares to `other`: by the quotients of the quote and the
    /// base amounts, whatever the currencies.
    pub fn partial_cmp(&self, other: &Self) -> (res: Option<Ordering>)
        ensures
            self.spec_lt(*other) ==> res == Some(Ordering::Less),
            self.spec_same(*other) ==> res == Some(Ordering::Equal),
            !self.spec_lt(*other) && !self.spec_same(*other) ==> res == Some(Ordering::Greater),
    {
        let order: i8 = product_order(
            (self.amount_quote.amount, other.amount.amount),
            (self.amount.amount, other.amount_quote.amount),
        );
        if order < 0 {
            Some(Ordering::Less)
        } else if order == 0 {
            Some(Ordering::Equal)
        } else {
            Some(Ordering::Greater)
        }
    }

    /// Whether `self` is lower than `other`.
    pub fn lt(&self, other: &Self) -> (res: bool)
        ensures
            res == self.spec_lt(*other),
    {
        product_order(
            (self.amount_quote.amount, other.amount.amount),
            (self.amount.amount, other.amount_quote.amount),
        ) < 0
    }
}

/// Something to do with a price whose two currencies are not known before.
pub trait WithPrice: Sized {
    type Output;

    type Error;

    /// Does it with `price`, which is between `base` and `quote`.
    fn exec(self, price: Price, base: Currency, quote: Currency) -> Result<
        Self::Output,
        Self::Error,
    >;
}

/// Something to do with a price of a known base currency whose quote
/// currency is not known before.
pub trait WithBase: Sized {
    type Output;

    type Error;

    /// The base currency.
    fn base(&self) -> Currency;

    /// Does it with `price`, which is between the base currency and `quote`.
    fn exec(self, price: Price, quote: Currency) -> Result<Self::Output, Self::Error>;
}

} // verus!
