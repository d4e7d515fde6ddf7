//! Why a request fails.

use crate::block::BlockId;
use crate::settings::InsufficientFunds;
use vstd::prelude::*;
use vstd::string::*;

verus! {

/// A request that asks for nothing.
#[derive(Clone, Copy, Debug, PartialEq, Eq)]
pub enum InvalidParams {
    /// There are no calls.
    CallsEmpty,
    /// There are no bundles.
    BundlesEmpty,
}

impl InvalidParams {
    /// What is wrong with the request.
    pub fn message(&self) -> (text: String)
        ensures
            text@ == (match self {
                InvalidParams::CallsEmpty => "calls are empty."@,
                InvalidParams::BundlesEmpty => "bundles are empty."@,
            }),
    {
        match self {
            InvalidParams::CallsEmpty => "calls are empty.".to_owned(),
            InvalidParams::BundlesEmpty => "bundles are empty.".to_owned(),
        }
    }
}

/// Why a request fails. `E` is the error of the node that serves it.
#[derive(Clone, Copy, Debug, PartialEq, Eq)]
pub enum CallError<E> {
    /// The request asks for nothing.
    InvalidParams(InvalidParams),
    /// There is no such block.
    HeaderNotFound(BlockId),
    /// More blocks were asked for than may be simulated.
    TooManyBlocks,
    /// A block was asked for with a larger gas limit than is allowed.
    GasLimitReached,
    /// A call of a bundle failed.
    CallMany { bundle_index: usize, tx_index: usize, error: E },
    /// The sender cannot pay for the value of the call.
    InsufficientFunds(InsufficientFunds),
    /// The caller went away before the call was made.
    Cancelled,
    /// The node failed.
    Node(E),
}

/// Whether a call may still be made: not once the caller has gone away.
pub fn unless_cancelled<E>(cancelled: bool) -> (go: Result<(), CallError<E>>)
    ensures
        go == if cancelled {
            Err::<(), CallError<E>>(CallError::Cancelled)
        } else {
            Ok::<(), CallError<E>>(())
        },
{
    if cancelled {
        Err(CallError::Cancelled)
    } else {
        Ok(())
    }
}

} // verus!
