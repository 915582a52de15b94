use std::time::Duration;

use toguru::actuator::error::{ActuatorChangeRecvError, OperationError};
use toguru::actuator::mqtt_zigbee_switch::MqttZigbeeSwitchActuator;
use toguru::actuator::phoney_baloney::PhoneyBaloneyActuator;
use toguru::actuator::{Actuator, ActuatorChangeListener, ActuatorToggleState, ActuatorToggleUpState};
use toguru::ToggleState;

#[test]
fn simulated_switch_reports_changes_only() {
    let mut actuator = PhoneyBaloneyActuator::new("lamp".to_string(), ToggleState::Off, Duration::ZERO, 4);
    assert_eq!(actuator.id(), "lamp");
    assert!(!actuator.set(ToggleState::Off));
    assert!(actuator.set(ToggleState::On));
    assert!(!actuator.set(ToggleState::On));
    assert_eq!(actuator.state_change_delay(), Duration::ZERO);
    let listener = actuator.subscribe_to_changes();
    assert_eq!(listener.id, "lamp");
    let wrapped = Actuator::PhoneyBaloney(actuator);
    assert_eq!(wrapped.id(), "lamp");
}

#[test]
fn listener_sees_sent_changes() {
    let actuator = PhoneyBaloneyActuator::new("fan".to_string(), ToggleState::Off, Duration::from_millis(5), 2);
    let mut listener = actuator.subscribe_to_changes();
    let mut second = listener.resubscribe();
    assert_eq!(second.id, "fan");
    actuator
        .state_change_tx()
        .send(ActuatorToggleState::up(ActuatorToggleUpState::new(ToggleState::On)))
        .ok()
        .expect("listeners exist");
    for rx in [&mut listener.rx, &mut second.rx] {
        match rx.try_recv() {
            Ok(ActuatorToggleState::Up(up)) => assert_eq!(up.state, ToggleState::On),
            _ => panic!("the change arrives"),
        }
    }
}

#[test]
fn recv_errors_map_to_listener_errors() {
    assert_eq!(ActuatorChangeRecvError::from_lag(None), ActuatorChangeRecvError::ActuatorClosed);
    assert_eq!(ActuatorChangeRecvError::from_lag(Some(3)), ActuatorChangeRecvError::Lagged(3));
    assert_eq!(
        ActuatorChangeRecvError::from_recv_error(tokio::sync::broadcast::error::RecvError::Lagged(4)),
        ActuatorChangeRecvError::Lagged(4)
    );
    assert_eq!(
        ActuatorChangeRecvError::from_recv_error(tokio::sync::broadcast::error::RecvError::Closed),
        ActuatorChangeRecvError::ActuatorClosed
    );
}

#[test]
fn up_state_carries_context() {
    let mut up = ActuatorToggleUpState::new(ToggleState::Off);
    assert!(up.extra_context.is_null());
    up.add_extra_context(serde_json::Value::Bool(true));
    assert_eq!(up.state, ToggleState::Off);
    assert_eq!(up.extra_context, serde_json::Value::Bool(true));
    match ActuatorToggleState::down(OperationError::Unresponsive) {
        ActuatorToggleState::Down(err) => assert!(matches!(*err, OperationError::Unresponsive)),
        ActuatorToggleState::Up(_) => panic!("a failure is a down report"),
    }
}

#[test]
fn mqtt_switch_keeps_its_listener() {
    let (tx, _rx) = tokio::sync::mpsc::channel(1);
    let (_btx, brx) = tokio::sync::broadcast::channel(1);
    let actuator = MqttZigbeeSwitchActuator::new(
        "plug".to_string(),
        tx,
        ActuatorChangeListener::new("plug".to_string(), brx),
    );
    assert_eq!(actuator.id(), "plug");
    assert_eq!(actuator.subscribe_to_changes().id, "plug");
}
