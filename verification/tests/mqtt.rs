use std::time::Duration;

use toguru::actuator::mqtt_zigbee_switch::MqttBrokerConnection;
use toguru::actuator::mqtt_zigbee_switch::{
    check_timeouts, observe_switch, process_msg, set_topic, subscription_topic, timeout_elapsed, MsgError, StateWidget,
};
use toguru::id_map::IdMap;
use toguru::ToggleState;

#[test]
fn message_on_switch_topic_is_read() {
    assert_eq!(
        process_msg("zigbee2mqtt/lamp", Some("ON".to_string()), "zigbee2mqtt"),
        Err(MsgError::UnknownState)
    );
    assert_eq!(
        process_msg("zigbee2mqtt/lamp", Some("On".to_string()), "zigbee2mqtt"),
        Ok(("lamp".to_string(), ToggleState::On))
    );
    assert_eq!(
        process_msg("zigbee2mqtt/lamp/extra", Some("Off".to_string()), "zigbee2mqtt"),
        Ok(("lamp".to_string(), ToggleState::Off))
    );
    assert_eq!(
        process_msg("zigbee2mqtt/", Some("Off".to_string()), "zigbee2mqtt"),
        Ok((String::new(), ToggleState::Off))
    );
}

#[test]
fn topic_errors_come_first() {
    assert_eq!(
        process_msg("other/lamp", None, "zigbee2mqtt"),
        Err(MsgError::UnexpectedBaseTopic("other".to_string()))
    );
    assert_eq!(process_msg("zigbee2mqtt", Some("On".to_string()), "zigbee2mqtt"), Err(MsgError::MissingId));
    assert_eq!(process_msg("zigbee2mqtt/lamp", None, "zigbee2mqtt"), Err(MsgError::MalformedPayload));
}

#[test]
fn topics_are_built_from_base() {
    assert_eq!(subscription_topic("z2m"), "z2m/+");
    assert_eq!(set_topic("z2m", "lamp"), "z2m/lamp/set");
}

#[test]
fn repeated_state_is_one_change() {
    let mut widget = StateWidget::new(0);
    assert!(widget.observe(ToggleState::On, 10));
    assert_eq!(widget, StateWidget { last_state: Some(ToggleState::On), last_state_ts: 10 });
    assert!(!widget.observe(ToggleState::On, 20));
    assert_eq!(widget.last_state_ts, 10);
    assert!(widget.observe(ToggleState::Off, 30));
    assert_eq!(widget.last_state_ts, 30);
}

#[test]
fn silent_switch_times_out() {
    let mut widget = StateWidget::new(0);
    widget.observe(ToggleState::On, 100);
    assert!(!widget.check_timeout(150, 50));
    assert_eq!(widget.last_state, Some(ToggleState::On));
    assert!(widget.check_timeout(151, 50));
    assert_eq!(widget.last_state, None);
    assert_eq!(widget.last_state_ts, 100);
    assert!(widget.observe(ToggleState::On, 160));
}

#[test]
fn elapsed_time_saturates() {
    assert!(!timeout_elapsed(5, 10, 0));
    assert!(!timeout_elapsed(10, 10, 0));
    assert!(timeout_elapsed(11, 10, 0));
    assert!(!timeout_elapsed(20, 10, 10));
}

#[test]
fn connection_registers_its_switches() {
    let mut conn = MqttBrokerConnection::new(
        "client".to_string(),
        "localhost".to_string(),
        1883,
        "zigbee2mqtt".to_string(),
        4,
        10,
        Duration::from_secs(30),
    );
    assert!(conn.state_change_tx_map.keys().is_empty());
    assert_eq!(conn.base_topic, "zigbee2mqtt");
    assert_eq!(conn.switch_timeout, Duration::from_secs(30));
    let actuator = conn.new_actuator("lamp".to_string(), 2);
    assert_eq!(actuator.id(), "lamp");
    assert_eq!(actuator.subscribe_to_changes().id, "lamp");
    assert!(conn.state_change_tx_map.contains_key("lamp"));
    conn.set_keepalive(Duration::from_secs(5));
    assert_eq!(conn.options.keep_alive(), Duration::from_secs(5));
    assert!(!conn.try_set_keepalive(Duration::from_millis(500)));
    assert_eq!(conn.options.keep_alive(), Duration::from_secs(5));
    assert!(conn.try_set_keepalive(Duration::from_millis(1500)));
    assert_eq!(conn.options.keep_alive(), Duration::from_millis(1500));
    assert!(conn.try_set_keepalive(Duration::ZERO));
    assert_eq!(conn.options.keep_alive(), Duration::ZERO);
    actuator.set_tx().try_send(("lamp".to_string(), ToggleState::On)).ok().expect("queue has room");
    assert_eq!(conn.set_rx.try_recv().ok(), Some(("lamp".to_string(), ToggleState::On)));
    assert_eq!(conn.options.broker_address(), ("localhost".to_string(), 1883));
}

#[test]
fn message_errors_have_texts() {
    let err = process_msg("other/lamp", Some("On".to_string()), "zigbee2mqtt").unwrap_err();
    assert_eq!(err.message(), "unexpected base topic: other");
    assert_eq!(MsgError::MissingId.message(), "could not parse ID");
    assert_eq!(MsgError::MalformedPayload.message(), "failed to parse payload");
    assert_eq!(MsgError::UnknownState.message(), "failed to parse state");
}

#[test]
fn every_silent_switch_times_out() {
    let mut widgets = IdMap::new();
    let mut lamp = StateWidget::new(0);
    lamp.observe(ToggleState::On, 100);
    let mut fan = StateWidget::new(0);
    fan.observe(ToggleState::Off, 10);
    widgets.insert("lamp".to_string(), lamp);
    widgets.insert("fan".to_string(), fan);
    widgets.insert("plug".to_string(), StateWidget::new(0));
    let mut timed_out = check_timeouts(&mut widgets, 120, 50);
    timed_out.sort();
    assert_eq!(timed_out, vec!["fan".to_string(), "plug".to_string()]);
    assert_eq!(widgets.get("lamp").unwrap().last_state, Some(ToggleState::On));
    assert_eq!(widgets.get("fan").unwrap().last_state, None);
    assert_eq!(widgets.get("fan").unwrap().last_state_ts, 10);
    assert_eq!(widgets.get("plug").unwrap().last_state, None);
}

#[test]
fn messages_update_only_known_switches() {
    let mut widgets = IdMap::new();
    widgets.insert("lamp".to_string(), StateWidget::new(0));
    assert_eq!(observe_switch(&mut widgets, "lamp", ToggleState::On, 5), Some(true));
    assert_eq!(observe_switch(&mut widgets, "lamp", ToggleState::On, 6), Some(false));
    assert_eq!(widgets.get("lamp").unwrap().last_state_ts, 5);
    assert_eq!(observe_switch(&mut widgets, "fan", ToggleState::On, 7), None);
    assert!(!widgets.contains_key("fan"));
}
