use std::sync::Arc;

use toguru::actuators::{ActuatorRequest, ActuatorResponse};
use toguru::broker::{
    broker, process_request, transact_actuator, BrokerAction, BrokerRequest, BrokerResponse,
    TransactOutcome,
};
use toguru::rrch::server_client;
use toguru::{SwitchOperationalStatus, ToggleState};

#[test]
fn new_broker_lists_no_switch() {
    let (broker, _client) = broker(4);
    match process_request(BrokerRequest::List, &broker.actuator_map) {
        BrokerAction::Respond(BrokerResponse::List(ids)) => assert!(ids.is_empty()),
        _ => panic!("a list request is answered at once"),
    }
}

#[test]
fn added_actuator_receives_requests() {
    let (mut broker, _client) = broker(4);
    let (_server, actuator) = server_client::<ActuatorRequest, ActuatorResponse>(2);
    assert!(broker.add("lamp".to_string(), actuator.clone()).is_none());
    assert_eq!(broker.actuator_map.keys().len(), 1);
    assert!(broker.add("lamp".to_string(), actuator.clone()).is_some());
    assert_eq!(broker.actuator_map.keys().len(), 1);
    assert!(broker.add("fan".to_string(), actuator).is_none());
    assert_eq!(broker.actuator_map.keys().len(), 2);
    match process_request(BrokerRequest::Get("lamp".to_string()), &broker.actuator_map) {
        BrokerAction::Transact(_, ActuatorRequest::Get(id)) => assert_eq!(id, "lamp"),
        _ => panic!("a known switch is forwarded"),
    }
    match process_request(
        BrokerRequest::SetState("lamp".to_string(), ToggleState::On),
        &broker.actuator_map,
    ) {
        BrokerAction::Transact(_, ActuatorRequest::SetState(id, state)) => {
            assert_eq!(id, "lamp");
            assert_eq!(state, ToggleState::On);
        }
        _ => panic!("a known switch is forwarded"),
    }
    match process_request(BrokerRequest::List, &broker.actuator_map) {
        BrokerAction::Respond(BrokerResponse::List(mut ids)) => {
            ids.sort();
            assert_eq!(ids, vec!["fan".to_string(), "lamp".to_string()])
        }
        _ => panic!("a list request is answered at once"),
    }
}

#[test]
fn unknown_switch_is_rejected() {
    let (broker, _client) = broker(1);
    match process_request(BrokerRequest::Get("fan".to_string()), &broker.actuator_map) {
        BrokerAction::Reject(text) => assert_eq!(text, "unknown switch: \"fan\""),
        _ => panic!("an unknown switch is rejected"),
    }
    match process_request(
        BrokerRequest::SetState("fan".to_string(), ToggleState::Off),
        &broker.actuator_map,
    ) {
        BrokerAction::Reject(text) => assert_eq!(text, "unknown switch: \"fan\""),
        _ => panic!("an unknown switch is rejected"),
    }
}

#[test]
fn actuator_answers_pass_through() {
    match transact_actuator(TransactOutcome::Answered(ActuatorResponse::Get(
        "lamp".to_string(),
        SwitchOperationalStatus::Confirmed(ToggleState::On),
    ))) {
        Ok(BrokerResponse::Get(id, SwitchOperationalStatus::Confirmed(ToggleState::On))) => {
            assert_eq!(id, "lamp")
        }
        _ => panic!("a get answer stays a get answer"),
    }
    match transact_actuator(TransactOutcome::Answered(ActuatorResponse::SetState(
        "lamp".to_string(),
        SwitchOperationalStatus::Transitioning(ToggleState::Off),
    ))) {
        Ok(BrokerResponse::SetState(id, SwitchOperationalStatus::Transitioning(ToggleState::Off))) => {
            assert_eq!(id, "lamp")
        }
        _ => panic!("a set answer stays a set answer"),
    }
    let err = Arc::new(anyhow::Error::msg("boom"));
    match transact_actuator(TransactOutcome::Answered(ActuatorResponse::Error(err.clone()))) {
        Ok(BrokerResponse::Error(e)) => assert!(Arc::ptr_eq(&e, &err)),
        _ => panic!("an error answer stays an error answer"),
    }
}

#[test]
fn failed_exchanges_give_error_texts() {
    assert_eq!(
        transact_actuator(TransactOutcome::AnswerDropped).unwrap_err(),
        "actuator response channel closed before sending"
    );
    assert_eq!(
        transact_actuator(TransactOutcome::RequestRejected(ActuatorRequest::SetState(
            "lamp".to_string(),
            ToggleState::On
        )))
        .unwrap_err(),
        "actuator channel mapped to \"lamp\" closed"
    );
}

#[test]
fn requests_name_their_switch() {
    assert_eq!(BrokerRequest::List.into_switch_id(), None);
    assert_eq!(BrokerRequest::Get("a".to_string()).into_switch_id(), Some("a".to_string()));
    assert_eq!(
        BrokerRequest::SetState("b".to_string(), ToggleState::On).into_switch_id(),
        Some("b".to_string())
    );
    assert_eq!(ActuatorRequest::Get("c".to_string()).into_switch_id(), "c");
    assert_eq!(ActuatorRequest::SetState("d".to_string(), ToggleState::Off).into_switch_id(), "d");
}
