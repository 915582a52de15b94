//! The parts of the configuration file that describe toggles and brokers.
use vstd::prelude::*;

pub mod defaults;

verus! {

/// A toggle: its identifier, an optional display name, and its actuator.
#[derive(Debug, Clone)]
pub struct Toggle {
    pub id: String,
    pub pretty: Option<String>,
    pub actuator: Actuator,
}

/// The kind of actuator behind a toggle.
#[derive(Debug, Clone)]
pub enum Actuator {
    /// A simulated switch.
    PhoneyBaloney,
    /// A switch reached through an MQTT broker.
    Mqtt(MqttActuator),
}

/// The broker through which an MQTT switch is reached.
#[derive(Debug, Clone)]
pub struct MqttActuator {
    pub broker_name: String,
}

/// An MQTT broker: its name, where it listens, and the client identifier to
/// use with it.
#[derive(Debug, Clone)]
pub struct MqttBroker {
    pub name: String,
    pub host: String,
    pub port: u16,
    pub client_id: String,
}

} // verus!
