//! Errors of actuators and of their change listeners.
use vstd::prelude::*;

verus! {

/// Why an actuator could not carry out an operation.
#[derive(Debug)]
pub enum OperationError {
    /// The network failed; the cause is kept.
    Network(anyhow::Error),
    /// Something inside the service failed; the cause is kept.
    Internal(anyhow::Error),
    /// The switch stopped reporting its state.
    Unresponsive,
}

/// Why no state change could be received from an actuator.
#[derive(Debug, Clone, Copy, PartialEq, Eq, Structural)]
pub enum ActuatorChangeRecvError {
    /// The actuator is gone and no more changes will come.
    ActuatorClosed,
    /// The listener fell behind by this many state transitions.
    Lagged(u64),
}

impl ActuatorChangeRecvError {
    /// The error for a failed receive: `ActuatorClosed` when the channel closed
    /// (`None`), `Lagged(n)` when `n` transitions were missed.
    pub fn from_lag(lag: Option<u64>) -> (err: Self)
        ensures
            err == (match lag {
                None => ActuatorChangeRecvError::ActuatorClosed,
                Some(n) => ActuatorChangeRecvError::Lagged(n),
            }),
    {
        match lag {
            None => ActuatorChangeRecvError::ActuatorClosed,
            Some(n) => ActuatorChangeRecvError::Lagged(n),
        }
    }

    /// The error for a failed receive on the broadcast channel of an actuator.
    pub fn from_recv_error(err: tokio::sync::broadcast::error::RecvError) -> (res: Self)
        ensures
            res == (match crate::outside::recv_error_lag_of(err) {
                None => ActuatorChangeRecvError::ActuatorClosed,
                Some(n) => ActuatorChangeRecvError::Lagged(n),
            }),
    {
        Self::from_lag(crate::outside::recv_error_lag(err))
    }

}

} // verus!
