//! The requests that the broker hands to an actuator, and the answers.
use std::sync::Arc;

use vstd::prelude::*;

use crate::{SwitchOperationalStatus, SwitchToggleState};

verus! {

/// A request to one switch's actuator.
#[derive(Debug, Clone)]
pub enum ActuatorRequest {
    /// Report the switch's status.
    Get(String),
    /// Move the switch into a state.
    SetState(String, SwitchToggleState),
}

/// The switch that a request is addressed to.
pub open spec fn actuator_request_switch_id(req: ActuatorRequest) -> Seq<char> {
    match req {
        ActuatorRequest::Get(id) => id@,
        ActuatorRequest::SetState(id, _) => id@,
    }
}

impl ActuatorRequest {
    /// The identifier of the switch the request is addressed to.
    pub fn into_switch_id(self) -> (id: String)
        ensures
            id@ == actuator_request_switch_id(self),
    {
        match self {
            ActuatorRequest::Get(id) => id,
            ActuatorRequest::SetState(id, ..) => id,
        }
    }
}

/// An actuator's answer.
#[derive(Debug, Clone)]
pub enum ActuatorResponse {
    Get(String, SwitchOperationalStatus),
    SetState(String, SwitchOperationalStatus),
    Error(Arc<anyhow::Error>),
}

} // verus!
