//! Actuators: the things that move a switch and report what it does.
use std::sync::Arc;

use vstd::prelude::*;

use crate::actuator::mqtt_zigbee_switch::MqttZigbeeSwitchActuator;
use crate::actuator::phoney_baloney::PhoneyBaloneyActuator;
use crate::ToggleState;

pub mod error;
pub mod mqtt_zigbee_switch;
pub mod phoney_baloney;

verus! {

/// An actuator of one of the supported kinds.
pub enum Actuator {
    PhoneyBaloney(PhoneyBaloneyActuator),
    MqttZigbeeSwitch(MqttZigbeeSwitchActuator),
}

impl Actuator {
    /// The identifier of a simulated actuator. Asking an MQTT actuator for it
    /// is not implemented and panics, so that input is left out.
    pub fn id(&self) -> (id: &str)
        requires
            self is PhoneyBaloney,
        ensures
            id@ == self->PhoneyBaloney_0.id_view(),
    {
        match self {
            Actuator::PhoneyBaloney(actuator) => actuator.id(),
            Actuator::MqttZigbeeSwitch(actuator) => {
                proof {
                    assert(false);
                }
                actuator.id()
            },
        }
    }
}

/// A subscription to the state changes of one actuator.
pub struct ActuatorChangeListener {
    /// The identifier of the actuator listened to.
    pub id: String,
    /// The receiving half of the actuator's change channel.
    pub rx: tokio::sync::broadcast::Receiver<ActuatorToggleState>,
    /// The sender the library recorded beside `rx` when it made the listener:
    /// the sending half it took from the same channel call (kept for proofs
    /// only; a listener made by `new` records nothing known).
    pub peer: Ghost<tokio::sync::broadcast::Sender<ActuatorToggleState>>,
}

impl ActuatorChangeListener {
    /// A listener for the actuator with this identifier.
    pub fn new(id: String, rx: tokio::sync::broadcast::Receiver<ActuatorToggleState>) -> (listener: Self)
        ensures
            listener.id == id,
            listener.rx == rx,
    {
        ActuatorChangeListener { id, rx, peer: Ghost(vstd::pervasive::arbitrary()) }
    }

    /// A second listener for the same actuator, which sees the changes sent
    /// from now on.
    pub fn resubscribe(&self) -> (listener: Self)
        ensures
            listener.id@ == self.id@,
            listener.peer@ == self.peer@,
    {
        ActuatorChangeListener {
            id: self.id.clone(),
            rx: crate::outside::broadcast_resubscribe(&self.rx),
            peer: Ghost(self.peer@),
        }
    }
}

/// What an actuator reports: the state it is in, or why it is down.
#[derive(Debug, Clone)]
pub enum ActuatorToggleState {
    Up(ActuatorToggleUpState),
    Down(Arc<error::OperationError>),
}

impl ActuatorToggleState {
    /// The report of an actuator that is up.
    pub fn up(state: ActuatorToggleUpState) -> (report: Self)
        ensures
            report == ActuatorToggleState::Up(state),
    {
        ActuatorToggleState::Up(state)
    }

    /// The report of an actuator that is down, with the reason.
    pub fn down(err: error::OperationError) -> (report: Self)
        ensures
            report is Down,
            *report->Down_0 == err,
    {
        ActuatorToggleState::Down(Arc::new(err))
    }
}

/// The state of an actuator that is up, with what else it reported.
#[derive(Debug, Clone)]
pub struct ActuatorToggleUpState {
    pub state: ToggleState,
    pub extra_context: serde_json::Value,
}

impl ActuatorToggleUpState {
    /// The state, with JSON `null` as its extra context.
    pub fn new(state: ToggleState) -> (up: Self)
        ensures
            up.state == state,
    {
        ActuatorToggleUpState { state, extra_context: crate::outside::json_null() }
    }

    /// Replaces the extra context; the state stays.
    pub fn add_extra_context(&mut self, extra_context: serde_json::Value)
        ensures
            final(self).state == old(self).state,
            final(self).extra_context == extra_context,
    {
        self.extra_context = extra_context;
    }
}

} // verus!
