//! Verified core of a collateralised lease: the value primitives, the
//! interest and margin accrual engine, the cross-chain swap and transfer
//! protocol, guaranteed response delivery and the lease life-cycle, with
//! the contracts that serve a lease: the alarm service, the profit
//! collector, the pool's lender side, the migration of leases and the
//! rules of software updates.
//!
//! Every function is a transition from plain values to plain values that
//! does not panic: it reads nothing but its arguments, and what it wants
//! done it returns as instructions. The host runtime carries them out and
//! resumes the contract with the outcome.

// Value primitives.
pub mod timestamp;
pub mod duration;
pub mod fractionable;
pub mod percent;
pub mod address;
pub mod coin;
pub mod price;

// The accrual engine.
pub mod interest;
pub mod loan;

// Instructions and events.
pub mod event;
pub mod trx;
pub mod batch;
pub mod env;

// The remote account and the wire format of its replies.
pub mod ica;
pub mod connection;
pub mod bank_ibc;
pub mod wire;
pub mod decimal;
pub mod msg_data;

// The cross-chain protocol.
pub mod error;
pub mod response;
pub mod swap_task;
pub mod swap_coins;
pub mod coin_index;
pub mod timeout;
pub mod ica_connector;
pub mod swap_exact_in;
pub mod transfer_in_init;
pub mod transfer_in_finish;
pub mod out_local;
pub mod out_remote;
pub mod entry_delay;
pub mod resp_delivery;

// The lease.
pub mod api;
pub mod lease;
pub mod contract;

// The contracts around the lease.
pub mod alarms;
pub mod timealarms;
pub mod profit;
pub mod lender;
pub mod leaser;
pub mod migrate;
pub mod release;
