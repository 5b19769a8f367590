//! The states of a task whose outcome comes back to the local network: the
//! swap, the transfer of what it gave and the wait for its arrival.
use vstd::prelude::*;
use crate::swap_exact_in::SwapExactIn;
use crate::transfer_in_finish::TransferInFinish;
use crate::transfer_in_init::TransferInInit;

verus! {

/// Marks a step as one of a task whose outcome comes back to the local
/// network.
#[derive(Clone, Copy, PartialEq, Eq, Debug)]
pub struct Local;

/// The state of a task whose outcome comes back to the local network.
#[derive(PartialEq, Eq, Debug)]
pub enum State<SwapTask> {
    SwapExactIn(SwapExactIn<SwapTask, Local>),
    TransferInInit(TransferInInit<SwapTask>),
    TransferInFinish(TransferInFinish<SwapTask>),
}

} // verus!
