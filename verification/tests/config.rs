use std::sync::Arc;

use toguru::daemon::config::defaults::{mqtt_broker_client_id, mqtt_broker_port, service_bind_port};
use toguru::server::{
    get_switch_list_v1, get_switch_state_v1, switch_state_resp_payload_v1, ApiAnswer, SwitchReply,
    SwitchStateDetail,
};
use toguru::{SwitchOperationalStatus, ToggleState};

#[test]
fn defaults() {
    assert_eq!(service_bind_port(), 8080);
    assert_eq!(mqtt_broker_port(), 1883);
    assert_eq!(mqtt_broker_client_id(), "toguru-client");
}

#[test]
fn switch_payload_words() {
    match switch_state_resp_payload_v1(SwitchOperationalStatus::Confirmed(ToggleState::On)) {
        (word, SwitchStateDetail::State(state)) => {
            assert_eq!(word, "confirmed");
            assert_eq!(state, "On");
        }
        _ => panic!("a confirmed switch gives its state"),
    }
    match switch_state_resp_payload_v1(SwitchOperationalStatus::Transitioning(ToggleState::Off)) {
        (word, SwitchStateDetail::State(state)) => {
            assert_eq!(word, "transitioning");
            assert_eq!(state, "Off");
        }
        _ => panic!("a transitioning switch gives its state"),
    }
    let err = Arc::new(anyhow::Error::msg("no answer"));
    match switch_state_resp_payload_v1(SwitchOperationalStatus::Failure(err)) {
        (word, SwitchStateDetail::FailureReason(e)) => {
            assert_eq!(word, "failure");
            assert_eq!(e.to_string(), "no answer");
        }
        _ => panic!("a failed switch gives its reason"),
    }
}

#[test]
fn switch_list_replies() {
    match get_switch_list_v1(ApiAnswer::Answered(vec!["lamp".to_string()])) {
        (200, SwitchReply::Payload(list)) => assert_eq!(list, vec!["lamp".to_string()]),
        _ => panic!("a list is replied with 200"),
    }
    match get_switch_list_v1(ApiAnswer::Refused("down".to_string())) {
        (503, SwitchReply::Error(text)) => assert_eq!(text, "failed to list switches: down"),
        _ => panic!("a refusal is replied with 503"),
    }
    match get_switch_list_v1(ApiAnswer::Unexpected) {
        (500, SwitchReply::Error(text)) => assert_eq!(text, "unexpected response from API subsystem"),
        _ => panic!("an unexpected answer is replied with 500"),
    }
    match get_switch_list_v1(ApiAnswer::TransactFailed) {
        (500, SwitchReply::Error(text)) => assert_eq!(text, "failed to transact with API subsystem"),
        _ => panic!("a failed exchange is replied with 500"),
    }
}

#[test]
fn switch_state_replies() {
    match get_switch_state_v1(ApiAnswer::Answered((
        "lamp".to_string(),
        SwitchOperationalStatus::Confirmed(ToggleState::Off),
    ))) {
        (200, SwitchReply::Payload((id, word, SwitchStateDetail::State(state)))) => {
            assert_eq!(id, "lamp");
            assert_eq!(word, "confirmed");
            assert_eq!(state, "Off");
        }
        _ => panic!("a status is replied with 200"),
    }
    match get_switch_state_v1(ApiAnswer::Refused("busy".to_string())) {
        (503, SwitchReply::Error(text)) => assert_eq!(text, "failed to list switches: busy"),
        _ => panic!("a refusal is replied with 503"),
    }
}
