//! The events a lease emits, one per life-cycle transition.
use vstd::prelude::*;
use crate::address::Addr;
use crate::coin::CoinDTO;
use crate::timestamp::Timestamp;

verus! {

/// The kinds of life-cycle events.
#[derive(Clone, Copy, PartialEq, Eq, Structural, Debug)]
pub enum Type {
    RequestLoan,
    OpenIcaAccount,
    OpeningSwap,
    OpenedActive,
    RepaymentSwap,
    PaidActive,
    ClosingTransferIn,
    Closed,
    LiquidationWarning,
    LiquidationStart,
    LiquidationSwap,
    Liquidation,
}

impl Type {
    /// The name an event of this kind is published under. The runtime puts
    /// `wasm-` in front of it.
    pub open spec fn spec_as_str(&self) -> &'static str {
        match self {
            Type::RequestLoan => "ls-request-loan",
            Type::OpenIcaAccount => "ls-open-dex-account",
            Type::OpeningSwap => "ls-open-swap",
            Type::OpenedActive => "ls-open",
            Type::RepaymentSwap => "ls-repay-swap",
            Type::PaidActive => "ls-repay",
            Type::ClosingTransferIn => "ls-close-transfer-in",
            Type::Closed => "ls-close",
            Type::LiquidationWarning => "ls-liquidation-warning",
            Type::LiquidationStart => "ls-liquidation-start",
            Type::LiquidationSwap => "ls-liquidation-swap",
            Type::Liquidation => "ls-liquidation",
        }
    }

    /// The name an event of this kind is published under.
    pub fn as_str(&self) -> (res: &'static str)
        ensures
            res == self.spec_as_str(),
    {
        match self {
            Type::RequestLoan => "ls-request-loan",
            Type::OpenIcaAccount => "ls-open-dex-account",
            Type::OpeningSwap => "ls-open-swap",
            Type::OpenedActive => "ls-open",
            Type::RepaymentSwap => "ls-repay-swap",
            Type::PaidActive => "ls-repay",
            Type::ClosingTransferIn => "ls-close-transfer-in",
            Type::Closed => "ls-close",
            Type::LiquidationWarning => "ls-liquidation-warning",
            Type::LiquidationStart => "ls-liquidation-start",
            Type::LiquidationSwap => "ls-liquidation-swap",
            Type::Liquidation => "ls-liquidation",
        }
    }
}

/// What an event is about.
#[derive(Clone, Copy, PartialEq, Eq, Structural, Debug)]
pub enum EventKind {
    /// A life-cycle transition of a lease.
    Lease(Type),
    /// A response could not be delivered at once; another delivery is
    /// scheduled.
    NextDelivery,
    /// Profit was handed to the treasury.
    Profit,
}

/// One attribute of an event.
#[derive(Clone, PartialEq, Eq, Debug)]
pub enum Attribute {
    /// The lease the event is about.
    Id(Addr),
    /// The time of the block the event was emitted in.
    At(Timestamp),
    /// What is being delivered or repaired.
    What(&'static str),
    /// An amount the event carries.
    Amount(CoinDTO),
}

/// A structured event.
#[derive(Clone, PartialEq, Eq, Debug)]
pub struct Emitter {
    pub kind: EventKind,
    pub attributes: Vec<Attribute>,
}

impl Emitter {
    /// An event of `kind` without attributes.
    pub fn of_type(kind: EventKind) -> (res: Self)
        ensures
            res.kind == kind,
            res.attributes@ == Seq::<Attribute>::empty(),
    {
        Emitter { kind, attributes: Vec::new() }
    }

    /// The event with `attribute` added after those it has.
    pub fn emit(self, attribute: Attribute) -> (res: Self)
        ensures
            res.kind == self.kind,
            res.attributes@ == self.attributes@.push(attribute),
    {
        let mut attributes: Vec<Attribute> = self.attributes;
        attributes.push(attribute);
        Emitter { kind: self.kind, attributes }
    }

    /// The event with the time of the block added.
    pub fn emit_tx_info(self, now: Timestamp) -> (res: Self)
        ensures
            res.kind == self.kind,
            res.attributes@ == self.attributes@.push(Attribute::At(now)),
    {
        self.emit(Attribute::At(now))
    }
}

} // verus!
