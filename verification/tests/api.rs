use std::sync::Arc;

use toguru::actuator::error::OperationError;
use toguru::api::v1::{
    self, method_not_allowed, plan_get, plan_set, ApiError, ControllerCall, OperationStatus, Plan,
    ResponseBody, ToggleDownStatus, ToggleList, ToggleStatus, ToggleUpStatus,
};
use toguru::api::{route_get, route_post, supported_apis, ApiPath, Response, Route};
use toguru::engine::error::ControllerOperationError;
use toguru::engine::{self, ToggleStateSnapshot};
use toguru::ToggleState;

#[test]
fn error_status_codes() {
    assert_eq!(ApiError::MethodNotAllowed.get_status_code(), 405);
    assert_eq!(ApiError::UnknownToggleId("x".to_string()).get_status_code(), 404);
    assert_eq!(ApiError::MissingState.get_status_code(), 400);
    assert_eq!(ApiError::UnknownState("maybe".to_string()).get_status_code(), 400);
    assert_eq!(ApiError::Internal(anyhow::Error::msg("oops")).get_status_code(), 500);
}

#[test]
fn body_status_follows_outcome() {
    let ok = ResponseBody::ToggleList(OperationStatus::Success(ToggleList::new(vec![])));
    assert_eq!(ok.get_status_code(), 200);
    assert_eq!(method_not_allowed().get_status_code(), 405);
    let missing = ResponseBody::ToggleSet(OperationStatus::Error(ApiError::MissingState));
    assert_eq!(missing.get_status_code(), 400);
    let resp = v1::Response::new(12, missing);
    assert_eq!(resp.get_status_code(), 400);
    assert_eq!(resp.timestamp_tsns, 12);
    let api_resp: Response = resp.into();
    assert_eq!(api_resp.get_status_code(), 400);
}

#[test]
fn versions_are_listed_and_not_written() {
    assert_eq!(supported_apis(), &["v1"]);
    match route_get(ApiPath::Versions) {
        Route::Reply(resp) => {
            assert_eq!(resp.get_status_code(), 200);
            assert!(matches!(resp, Response::Versions(&["v1"])));
        }
        Route::V1(_) => panic!("versions are answered at once"),
    }
    match route_post(ApiPath::Versions) {
        Route::Reply(resp) => assert_eq!(resp.get_status_code(), 405),
        Route::V1(_) => panic!("versions are answered at once"),
    }
    assert!(matches!(route_get(ApiPath::V1(v1::ApiPath::Meta)), Route::V1(v1::ApiPath::Meta)));
    assert!(matches!(
        route_post(ApiPath::V1(v1::ApiPath::Toggle(None))),
        Route::V1(v1::ApiPath::Toggle(None))
    ));
}

#[test]
fn reads_become_controller_calls() {
    assert!(matches!(
        plan_get(v1::ApiPath::Toggle(None)),
        Plan::Call(ControllerCall::ListToggles)
    ));
    match plan_get(v1::ApiPath::Toggle(Some("lamp".to_string()))) {
        Plan::Call(ControllerCall::Get(id)) => assert_eq!(id, "lamp"),
        _ => panic!("a toggle's path reads the toggle"),
    }
}

#[test]
fn writes_check_the_state_parameter() {
    match plan_set(v1::ApiPath::Toggle(Some("lamp".to_string())), Some("On".to_string())) {
        Plan::Call(ControllerCall::SetState(id, state)) => {
            assert_eq!(id, "lamp");
            assert_eq!(state, ToggleState::On);
        }
        _ => panic!("a valid state is set"),
    }
    match plan_set(v1::ApiPath::Toggle(Some("lamp".to_string())), Some("dim".to_string())) {
        Plan::Reply(ResponseBody::ToggleSet(OperationStatus::Error(ApiError::UnknownState(text)))) => {
            assert_eq!(text, "dim")
        }
        _ => panic!("an unknown state is refused"),
    }
    match plan_set(v1::ApiPath::Toggle(Some("lamp".to_string())), None) {
        Plan::Reply(body) => {
            assert!(matches!(body, ResponseBody::ToggleSet(OperationStatus::Error(ApiError::MissingState))));
            assert_eq!(body.get_status_code(), 400);
        }
        _ => panic!("a missing state is refused"),
    }
    for path in [v1::ApiPath::Meta, v1::ApiPath::Toggle(None)] {
        match plan_set(path, Some("On".to_string())) {
            Plan::Reply(body) => {
                assert!(matches!(body, ResponseBody::Null(OperationStatus::Error(ApiError::MethodNotAllowed))));
                assert_eq!(body.get_status_code(), 405);
            }
            _ => panic!("these paths take no writes"),
        }
    }
}

#[test]
fn controller_results_become_bodies() {
    let listed: ResponseBody = Ok::<Vec<String>, ControllerOperationError>(vec!["a".to_string()]).into();
    match listed {
        ResponseBody::ToggleList(OperationStatus::Success(list)) => assert_eq!(list.toggles, vec!["a".to_string()]),
        _ => panic!("a list becomes a toggle list"),
    }
    let unknown: ResponseBody =
        Err::<Vec<String>, _>(ControllerOperationError::UnknownToggleId("z".to_string())).into();
    assert_eq!(unknown.get_status_code(), 404);
    let internal: ResponseBody = Err::<engine::ToggleStatus, _>(ControllerOperationError::Internal(
        anyhow::Error::msg("closed"),
    ))
    .into();
    assert!(matches!(internal, ResponseBody::ToggleGet(OperationStatus::Error(ApiError::Internal(_)))));
    assert_eq!(internal.get_status_code(), 500);
}

#[test]
fn statuses_are_split_into_times_and_states() {
    let up = engine::ToggleUpStatus::new(
        "lamp".to_string(),
        ToggleStateSnapshot::new(5, ToggleState::Off),
        ToggleStateSnapshot::new(7, ToggleState::On),
    );
    let api_up = ToggleUpStatus::from(up);
    assert_eq!(api_up.id, "lamp");
    assert_eq!(api_up.observed_tsns, 5);
    assert_eq!(api_up.observed_state, ToggleState::Off);
    assert_eq!(api_up.commanded_tsns, 7);
    assert_eq!(api_up.commanded_state, ToggleState::On);
    assert!(api_up.extra_context.is_null());

    let down = engine::ToggleDownStatus::new(
        "fan".to_string(),
        33,
        Some(Arc::new(OperationError::Internal(anyhow::Error::msg("stuck")))),
    );
    let body: ResponseBody = Ok::<_, ControllerOperationError>(engine::ToggleStatus::Down(down)).into();
    match body {
        ResponseBody::ToggleGet(OperationStatus::Success(ToggleStatus::Down(ToggleDownStatus {
            last_operable_tsns,
            failure,
        }))) => {
            assert_eq!(last_operable_tsns, 33);
            assert!(matches!(failure.as_deref(), Some(OperationError::Internal(_))));
        }
        _ => panic!("a down toggle is reported down"),
    }
}
