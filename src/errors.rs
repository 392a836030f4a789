//! The errors of a session and of the mocking layer.

use vstd::prelude::*;
use crate::primitives::{DispatchFailure, Selector};

verus! {

/// What can go wrong in a session operation.
#[derive(Clone, Debug, PartialEq, Eq)]
pub enum SessionError {
    /// The transcoder could not encode the arguments (unknown message, wrong arity or type).
    Encoding(String),
    /// A return value or an event could not be decoded.
    Decoding(String),
    /// A call without an explicit target was issued before any contract was deployed.
    NoContract,
    /// The target of a call has no registered transcoder.
    NoTranscoder,
    /// The constructor reverted.
    DeploymentReverted,
    /// The sandbox could not attempt the deployment.
    DeploymentFailed(DispatchFailure),
    /// The message reverted; the payload is kept so that it can be decoded as a typed error.
    CallReverted(Vec<u8>),
    /// The sandbox could not attempt the call.
    CallFailed(DispatchFailure),
    /// The sandbox could not store the code.
    UploadFailed(DispatchFailure),
}

/// What can go wrong when a call reaches a mocked contract.
#[derive(Clone, Copy, Debug, PartialEq, Eq)]
pub enum MockingError {
    /// The input is shorter than a selector.
    MissingSelector,
    /// The mock has no handler for this selector.
    MessageNotFound(Selector),
    /// The handler failed.
    HandlerFailed,
}

} // verus!
