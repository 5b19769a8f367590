//! The life-cycle of a lease: it is opened, it is active while its loan
//! accrues interest, it moves what it holds back when it is closed, and it
//! stays closed.
pub mod error;
pub mod closed;
pub mod transfer_in_finish;
pub mod transfer_in_init;
pub mod paid;
pub mod buy_asset;
pub mod opening;
pub mod state;
