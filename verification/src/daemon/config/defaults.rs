//! The values the configuration takes when it leaves a field out.
use vstd::prelude::*;

verus! {

/// The port the service listens on by default.
pub const SERVICE_BIND_PORT: u16 = 8080;

/// The port of an MQTT broker by default.
pub const MQTT_BROKER_PORT: u16 = 1883;

/// The port the service listens on by default: 8080.
pub fn service_bind_port() -> (port: u16)
    ensures
        port == SERVICE_BIND_PORT,
{
    SERVICE_BIND_PORT
}

/// The port of an MQTT broker by default: 1883.
pub fn mqtt_broker_port() -> (port: u16)
    ensures
        port == MQTT_BROKER_PORT,
{
    MQTT_BROKER_PORT
}

/// The client identifier used with an MQTT broker by default: `toguru-client`.
pub fn mqtt_broker_client_id() -> (id: String)
    ensures
        id@ == "toguru-client"@,
{
    String::from_str("toguru-client")
}

} // verus!
