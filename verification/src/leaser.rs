//! The configuration of the contract that opens leases.
use vstd::prelude::*;
use crate::address::Addr;
use crate::duration::Duration;
use crate::percent::Percent;

verus! {

/// Why a configuration is refused.
#[derive(Clone, Copy, PartialEq, Eq, Structural, Debug)]
pub enum ContractError {
    /// The liability levels are not in order: the initial one may not be
    /// above the healthy one, and the healthy one has to be below the
    /// maximal one.
    InvalidLiability,
}

/// The levels of liability a lease is held to, each a part of the value of
/// its asset.
#[derive(Clone, Copy, PartialEq, Eq, Structural, Debug)]
pub struct Liability {
    /// The liability a lease is opened at.
    pub initial: Percent,
    /// The liability a liquidation brings a lease back to.
    pub healthy: Percent,
    /// The liability above which a lease is liquidated.
    pub max: Percent,
}

impl Liability {
    /// The levels are in order.
    pub open spec fn wf(self) -> bool {
        self.initial.units <= self.healthy.units < self.max.units
    }
}

/// When interest falls due.
#[derive(Clone, Copy, PartialEq, Eq, Structural, Debug)]
pub struct Repayment {
    /// The length of a period at the end of which interest falls due.
    pub period: Duration,
    /// How long after that the interest may still be paid.
    pub grace_period: Duration,
}

/// What the contract is set up with.
#[derive(PartialEq, Eq, Debug)]
pub struct InstantiateMsg {
    pub lease_code_id: u64,
    pub lpp_ust_addr: Addr,
    pub lease_interest_rate_margin: Percent,
    pub liability: Liability,
    pub repayment: Repayment,
    pub time_alarms: Addr,
    pub market_price_oracle: Addr,
    pub profit: Addr,
}

/// A change of the terms that new leases are opened on, in whole percents
/// and seconds.
#[derive(Clone, Copy, PartialEq, Eq, Structural, Debug)]
pub struct UpdateConfigMsg {
    pub lease_interest_rate_margin: u8,
    pub lease_max_liability: u8,
    pub lease_healthy_liability: u8,
    pub lease_initial_liability: u8,
    pub repayment_period_sec: u32,
    pub grace_period_sec: u32,
}

impl UpdateConfigMsg {
    /// The margin the change asks for.
    pub open spec fn spec_margin(self) -> Percent {
        Percent { units: (self.lease_interest_rate_margin * 10) as u32 }
    }

    /// The liability levels the change asks for.
    pub open spec fn spec_liability(self) -> Liability {
        Liability {
            initial: Percent { units: (self.lease_initial_liability * 10) as u32 },
            healthy: Percent { units: (self.lease_healthy_liability * 10) as u32 },
            max: Percent { units: (self.lease_max_liability * 10) as u32 },
        }
    }

    /// The repayment terms the change asks for.
    pub open spec fn spec_repayment(self) -> Repayment {
        Repayment {
            period: Duration { nanos: (self.repayment_period_sec * 1_000_000_000) as u64 },
            grace_period: Duration { nanos: (self.grace_period_sec * 1_000_000_000) as u64 },
        }
    }

    /// The terms the change asks for. It is refused if the liability
    /// levels are not in order.
    pub fn terms(&self) -> (res: Result<(Percent, Liability, Repayment), ContractError>)
        ensures
            self.spec_liability().wf() ==> res == Ok::<
                (Percent, Liability, Repayment),
                ContractError,
            >((self.spec_margin(), self.spec_liability(), self.spec_repayment())),
            !self.spec_liability().wf() ==> res == Err::<
                (Percent, Liability, Repayment),
                ContractError,
            >(ContractError::InvalidLiability),
    {
        if self.lease_initial_liability <= self.lease_healthy_liability
            && self.lease_healthy_liability < self.lease_max_liability {
            Ok(
                (
                    Percent::from_percent(self.lease_interest_rate_margin as u16),
                    Liability {
                        initial: Percent::from_percent(self.lease_initial_liability as u16),
                        healthy: Percent::from_percent(self.lease_healthy_liability as u16),
                        max: Percent::from_percent(self.lease_max_liability as u16),
                    },
                    Repayment {
                        period: Duration::from_secs(self.repayment_period_sec),
                        grace_period: Duration::from_secs(self.grace_period_sec),
                    },
                ),
            )
        } else {
            Err(ContractError::InvalidLiability)
        }
    }
}

/// The configuration of the contract.
#[derive(PartialEq, Eq, Debug)]
pub struct Config {
    pub owner: Addr,
    pub lease_code_id: u64,
    pub lpp_addr: Addr,
    pub lease_interest_rate_margin: Percent,
    pub liability: Liability,
    pub repayment: Repayment,
    pub time_alarms: Addr,
    pub market_price_oracle: Addr,
    pub profit: Addr,
}

impl Config {
    /// The configuration that `sender` sets the contract up with by `msg`.
    pub fn new(sender: Addr, msg: InstantiateMsg) -> (res: Result<Config, ContractError>)
        ensures
            res == Ok::<Config, ContractError>(
                (Config {
                    owner: sender,
                    lease_code_id: msg.lease_code_id,
                    lpp_addr: msg.lpp_ust_addr,
                    lease_interest_rate_margin: msg.lease_interest_rate_margin,
                    liability: msg.liability,
                    repayment: msg.repayment,
                    time_alarms: msg.time_alarms,
                    market_price_oracle: msg.market_price_oracle,
                    profit: msg.profit,
                }),
            ),
    {
        Ok(
            Config {
                owner: sender,
                lease_code_id: msg.lease_code_id,
                lpp_addr: msg.lpp_ust_addr,
                lease_interest_rate_margin: msg.lease_interest_rate_margin,
                liability: msg.liability,
                repayment: msg.repayment,
                time_alarms: msg.time_alarms,
                market_price_oracle: msg.market_price_oracle,
                profit: msg.profit,
            },
        )
    }

    /// The configuration with the terms for new leases replaced; all else
    /// stays.
    pub fn update(
        self,
        lease_interest_rate_margin: Percent,
        liability: Liability,
        repayment: Repayment,
    ) -> (res: Config)
        ensures
            res == (Config { lease_interest_rate_margin, liability, repayment, ..self }),
    {
        Config {
            owner: self.owner,
            lease_code_id: self.lease_code_id,
            lpp_addr: self.lpp_addr,
            lease_interest_rate_margin,
            liability,
            repayment,
            time_alarms: self.time_alarms,
            market_price_oracle: self.market_price_oracle,
            profit: self.profit,
        }
    }
}

} // verus!
