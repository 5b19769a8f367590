//! The states of a task whose outcome stays on the remote network: the swap
//! alone.
use vstd::prelude::*;
use crate::swap_exact_in::SwapExactIn;

verus! {

/// Marks a step as one of a task whose outcome stays on the remote network.
#[derive(Clone, Copy, PartialEq, Eq, Debug)]
pub struct Remote;

/// The state of a task whose outcome stays on the remote network.
#[derive(PartialEq, Eq, Debug)]
pub enum State<SwapTask> {
    SwapExactIn(SwapExactIn<SwapTask, Remote>),
}

} // verus!
