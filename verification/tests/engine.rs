use toguru::actuator::error::OperationError;
use toguru::engine::{
    command_to_carry_out, set_and_timestamp, toggle, SetOutcome, SnapshotMap, StateCache, ToggleStateSnapshot, ToggleStatus,
};
use toguru::id_map::IdMap;
use toguru::ToggleState;

fn cache_with(ids: &[&str]) -> StateCache {
    let ids: Vec<String> = ids.iter().map(|s| s.to_string()).collect();
    StateCache::new(&ids)
}

#[test]
fn new_cache_has_nothing_recorded() {
    let cache = cache_with(&["lamp"]);
    assert_eq!(cache.get_commanded("lamp"), None);
    assert_eq!(cache.get_observed("lamp"), None);
    assert_eq!(cache.get_last_operable("lamp"), None);
}

#[test]
fn set_commanded_then_get() {
    let mut cache = cache_with(&["lamp"]);
    assert!(cache.set_commanded("lamp", ToggleState::On, 17).is_ok());
    assert_eq!(cache.get_commanded("lamp"), Some(ToggleStateSnapshot::new(17, ToggleState::On)));
    assert_eq!(cache.get_observed("lamp"), None);
    assert_eq!(cache.get_last_operable("lamp"), Some(17));
}

#[test]
fn set_observed_records_among_commanded_states() {
    let mut cache = cache_with(&["lamp"]);
    assert!(cache.set_observed("lamp", ToggleState::Off, 9).is_ok());
    assert_eq!(cache.get_commanded("lamp"), Some(ToggleStateSnapshot::new(9, ToggleState::Off)));
    assert_eq!(cache.get_observed("lamp"), None);
}

#[test]
fn unregistered_toggle_is_an_error() {
    let mut cache = cache_with(&["lamp"]);
    let err = cache.set_commanded("fan", ToggleState::On, 1).unwrap_err();
    assert_eq!(err.id, "fan");
    assert_eq!(err.message(), "fan not registered in cache");
    assert_eq!(cache.get_commanded("fan"), None);
}

#[test]
fn set_and_timestamp_stamps_the_state() {
    let mut map: SnapshotMap = IdMap::new();
    map.insert("lamp".to_string(), None);
    assert!(set_and_timestamp(&mut map, "lamp", ToggleState::On, 3).is_ok());
    assert_eq!(map.get("lamp"), Some(&Some(ToggleStateSnapshot { timestamp: 3, state: ToggleState::On })));
    assert!(set_and_timestamp(&mut map, "fan", ToggleState::On, 3).is_err());
}

#[test]
fn toggle_without_observation_is_down_since_command() {
    let mut cache = cache_with(&["lamp"]);
    match toggle("lamp".to_string(), SetOutcome::Applied(ToggleState::On), &mut cache, 100) {
        ToggleStatus::Down(down) => {
            assert_eq!(down.id, "lamp");
            assert_eq!(down.last_operable, 100);
            assert!(down.error.is_none());
        }
        ToggleStatus::Up(_) => panic!("no state was observed"),
    }
    assert_eq!(cache.get_commanded("lamp"), Some(ToggleStateSnapshot::new(100, ToggleState::On)));
}

#[test]
fn unknown_toggle_is_down_since_epoch() {
    let mut cache = cache_with(&["lamp"]);
    match toggle("fan".to_string(), SetOutcome::NotRequested, &mut cache, 100) {
        ToggleStatus::Down(down) => {
            assert_eq!(down.id, "fan");
            assert_eq!(down.last_operable, 0);
            assert!(down.error.is_none());
        }
        ToggleStatus::Up(_) => panic!("nothing is known of this toggle"),
    }
}

#[test]
fn failed_actuator_reports_error_and_last_operable() {
    let mut cache = cache_with(&["lamp"]);
    cache.set_commanded("lamp", ToggleState::On, 40).unwrap();
    match toggle(
        "lamp".to_string(),
        SetOutcome::Failed(OperationError::Network(anyhow::Error::msg("link down"))),
        &mut cache,
        90,
    ) {
        ToggleStatus::Down(down) => {
            assert_eq!(down.last_operable, 40);
            assert!(matches!(down.error.as_deref(), Some(OperationError::Network(_))));
        }
        ToggleStatus::Up(_) => panic!("the actuator failed"),
    }
    assert_eq!(cache.get_commanded("lamp"), Some(ToggleStateSnapshot::new(40, ToggleState::On)));
}

#[test]
fn last_operable_is_the_earliest_snapshot() {
    let mut cache = cache_with(&["lamp"]);
    cache.set_commanded("lamp", ToggleState::On, 50).unwrap();
    assert_eq!(cache.get_last_operable("lamp"), Some(50));
    cache.set_commanded("lamp", ToggleState::Off, 20).unwrap();
    assert_eq!(cache.get_last_operable("lamp"), Some(20));
}

#[test]
fn up_status_takes_extra_context() {
    let mut up = toguru::engine::ToggleUpStatus::new(
        "lamp".to_string(),
        ToggleStateSnapshot::new(1, ToggleState::On),
        ToggleStateSnapshot::new(2, ToggleState::On),
    );
    assert!(up.extra_context.is_null());
    up.add_extra_context(serde_json::Value::from(3));
    assert_eq!(up.extra_context, serde_json::Value::from(3));
    assert_eq!(up.id, "lamp");
    assert_eq!(up.commanded, ToggleStateSnapshot::new(2, ToggleState::On));
}

#[test]
fn registration_is_known() {
    let cache = cache_with(&["lamp", "fan"]);
    assert!(cache.registered("lamp"));
    assert!(cache.registered("fan"));
    assert!(!cache.registered("door"));
}

#[test]
fn commands_need_an_actuator() {
    let mut actuators: IdMap<u8> = IdMap::new();
    actuators.insert("lamp".to_string(), 0);
    assert_eq!(command_to_carry_out(Some(ToggleState::On), &actuators, "lamp"), Some(ToggleState::On));
    assert_eq!(command_to_carry_out(None, &actuators, "lamp"), None);
    assert_eq!(command_to_carry_out(Some(ToggleState::On), &actuators, "fan"), None);
}
