//! Errors of the controller.
use vstd::prelude::*;

verus! {

/// Why the controller could not carry out an operation.
#[derive(Debug)]
pub enum ControllerOperationError {
    /// No toggle has this identifier.
    UnknownToggleId(String),
    /// Something inside the service failed; the cause is kept.
    Internal(anyhow::Error),
}

} // verus!
