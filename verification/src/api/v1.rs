//! Version 1 of the API: toggles can be listed, read and set.
use std::sync::Arc;

use vstd::prelude::*;

use crate::actuator::error::OperationError;
use crate::api::TimestampNs;
use crate::engine::error::ControllerOperationError;
use crate::engine::{
    ToggleDownStatus as ControllerDownToggleStatus, ToggleStatus as ControllerToggleStatus,
    ToggleUpStatus as ControllerUpToggleStatus,
};
use crate::{parse_toggle_state, ToggleState};

verus! {

/// The HTTP status codes the API answers with.
pub const STATUS_OK: u16 = 200;
pub const STATUS_BAD_REQUEST: u16 = 400;
pub const STATUS_NOT_FOUND: u16 = 404;
pub const STATUS_METHOD_NOT_ALLOWED: u16 = 405;
pub const STATUS_INTERNAL_SERVER_ERROR: u16 = 500;

/// The paths of version 1.
pub enum ApiPath {
    /// `/api/v1/meta`
    Meta,
    /// `/api/v1/toggle` (`None`) or `/api/v1/toggle/<id>`.
    Toggle(Option<String>),
}

/// A request to read a toggle.
#[derive(Debug, Clone)]
pub struct ToggleGetRequest {
    pub id: String,
}

/// A request to set a toggle.
#[derive(Debug, Clone)]
pub struct ToggleSetRequest {
    pub id: String,
    pub state: ToggleState,
}

/// An answer: when it was made, and what it says.
#[derive(Debug)]
pub struct Response {
    pub timestamp_tsns: TimestampNs,
    pub body: ResponseBody,
}

impl Response {
    /// The answer made at `timestamp_tsns` with this body.
    pub fn new(timestamp_tsns: TimestampNs, body: ResponseBody) -> (resp: Self)
        ensures
            resp == (Response { timestamp_tsns, body }),
    {
        Response { timestamp_tsns, body }
    }

    /// The HTTP status code of the answer, which its body decides.
    pub fn get_status_code(&self) -> (code: u16)
        ensures
            code == response_body_status(self.body),
    {
        self.body.get_status_code()
    }
}

impl From<Response> for super::Response {
    fn from(resp: Response) -> (api_resp: super::Response) {
        super::Response::Api(super::VersionedApiResponse::V1(resp))
    }
}

impl vstd::std_specs::convert::FromSpecImpl<Response> for super::Response {
    open spec fn obeys_from_spec() -> bool {
        true
    }

    open spec fn from_spec(resp: Response) -> super::Response {
        super::Response::Api(super::VersionedApiResponse::V1(resp))
    }
}

/// What an answer says: which operation it is about and how it went.
#[derive(Debug)]
pub enum ResponseBody {
    Null(OperationStatus<()>),
    ToggleList(OperationStatus<ToggleList>),
    ToggleGet(OperationStatus<ToggleStatus>),
    ToggleSet(OperationStatus<ToggleStatus>),
}

/// The status code of a body: the code of its error, or 200.
pub open spec fn response_body_status(body: ResponseBody) -> u16 {
    match body {
        ResponseBody::Null(OperationStatus::Error(err)) => api_error_status(err),
        ResponseBody::ToggleList(OperationStatus::Error(err)) => api_error_status(err),
        ResponseBody::ToggleGet(OperationStatus::Error(err)) => api_error_status(err),
        ResponseBody::ToggleSet(OperationStatus::Error(err)) => api_error_status(err),
        _ => STATUS_OK,
    }
}

impl ResponseBody {
    /// The HTTP status code of the body.
    pub fn get_status_code(&self) -> (code: u16)
        ensures
            code == response_body_status(*self),
            *self matches ResponseBody::Null(OperationStatus::Error(e)) ==> code == api_error_status(e),
            *self matches ResponseBody::ToggleList(OperationStatus::Error(e)) ==> code == api_error_status(e),
            *self matches ResponseBody::ToggleGet(OperationStatus::Error(e)) ==> code == api_error_status(e),
            *self matches ResponseBody::ToggleSet(OperationStatus::Error(e)) ==> code == api_error_status(e),
            *self matches ResponseBody::Null(OperationStatus::Success(_)) ==> code == 200,
            *self matches ResponseBody::ToggleList(OperationStatus::Success(_)) ==> code == 200,
            *self matches ResponseBody::ToggleGet(OperationStatus::Success(_)) ==> code == 200,
            *self matches ResponseBody::ToggleSet(OperationStatus::Success(_)) ==> code == 200,
    {
        match self {
            ResponseBody::Null(OperationStatus::Error(err)) => err.get_status_code(),
            ResponseBody::ToggleList(OperationStatus::Error(err)) => err.get_status_code(),
            ResponseBody::ToggleGet(OperationStatus::Error(err)) => err.get_status_code(),
            ResponseBody::ToggleSet(OperationStatus::Error(err)) => err.get_status_code(),
            _ => STATUS_OK,
        }
    }
}

/// The identifiers of all toggles.
#[derive(Debug, Clone)]
pub struct ToggleList {
    pub toggles: Vec<String>,
}

impl ToggleList {
    /// The list of these identifiers.
    pub fn new(toggles: Vec<String>) -> (list: Self)
        ensures
            list.toggles == toggles,
    {
        ToggleList { toggles }
    }
}

/// The status of a toggle as the API reports it.
#[derive(Debug)]
pub enum ToggleStatus {
    Unknown,
    Up(ToggleUpStatus),
    Down(ToggleDownStatus),
}

impl From<ControllerToggleStatus> for ToggleStatus {
    fn from(status: ControllerToggleStatus) -> (api_status: ToggleStatus)
        ensures
            status matches ControllerToggleStatus::Up(up) ==> (api_status matches ToggleStatus::Up(a)
                && reports_up(up, a)),
            status matches ControllerToggleStatus::Down(down) ==> (api_status matches ToggleStatus::Down(
                a,
            ) && reports_down(down, a)),
    {
        match status {
            ControllerToggleStatus::Up(up) => ToggleStatus::Up(ToggleUpStatus::from(up)),
            ControllerToggleStatus::Down(down) => ToggleStatus::Down(ToggleDownStatus::from(down)),
        }
    }
}

impl vstd::std_specs::convert::FromSpecImpl<ControllerToggleStatus> for ToggleStatus {
    open spec fn obeys_from_spec() -> bool {
        true
    }

    open spec fn from_spec(status: ControllerToggleStatus) -> ToggleStatus {
        toggle_status_of(status)
    }
}

/// Whether `report` reports the working toggle `status`: the same identifier,
/// and the time and state of each of its two snapshots.
pub open spec fn reports_up(status: ControllerUpToggleStatus, report: ToggleUpStatus) -> bool {
    &&& report.id == status.id
    &&& report.observed_tsns == status.observed.timestamp
    &&& report.observed_state == status.observed.state
    &&& report.commanded_tsns == status.commanded.timestamp
    &&& report.commanded_state == status.commanded.state
    &&& report.extra_context == status.extra_context
}

/// Whether `report` reports the toggle that does not work, `status`: when it
/// last worked, and its failure.
pub open spec fn reports_down(status: ControllerDownToggleStatus, report: ToggleDownStatus) -> bool {
    &&& report.last_operable_tsns == status.last_operable
    &&& report.failure == status.error
}

/// The API's report of a toggle status.
pub open spec fn toggle_status_of(status: ControllerToggleStatus) -> ToggleStatus {
    match status {
        ControllerToggleStatus::Up(up) => ToggleStatus::Up(up_status_spec(up)),
        ControllerToggleStatus::Down(down) => ToggleStatus::Down(down_status_spec(down)),
    }
}

/// A working toggle as the API reports it: its states with their times.
#[derive(Debug)]
pub struct ToggleUpStatus {
    pub id: String,
    pub observed_tsns: TimestampNs,
    pub observed_state: ToggleState,
    pub commanded_tsns: TimestampNs,
    pub commanded_state: ToggleState,
    pub extra_context: serde_json::Value,
}

/// The report of a working toggle: each snapshot split into its time and state.
pub open spec fn up_status_spec(status: ControllerUpToggleStatus) -> ToggleUpStatus {
    ToggleUpStatus {
        id: status.id,
        observed_tsns: status.observed.timestamp,
        observed_state: status.observed.state,
        commanded_tsns: status.commanded.timestamp,
        commanded_state: status.commanded.state,
        extra_context: status.extra_context,
    }
}

impl From<ControllerUpToggleStatus> for ToggleUpStatus {
    fn from(status: ControllerUpToggleStatus) -> (api_status: ToggleUpStatus)
        ensures
            reports_up(status, api_status),
    {
        ToggleUpStatus {
            id: status.id,
            observed_tsns: status.observed.timestamp,
            observed_state: status.observed.state,
            commanded_tsns: status.commanded.timestamp,
            commanded_state: status.commanded.state,
            extra_context: status.extra_context,
        }
    }
}

impl vstd::std_specs::convert::FromSpecImpl<ControllerUpToggleStatus> for ToggleUpStatus {
    open spec fn obeys_from_spec() -> bool {
        true
    }

    open spec fn from_spec(status: ControllerUpToggleStatus) -> ToggleUpStatus {
        up_status_spec(status)
    }
}

/// A toggle that does not work, as the API reports it: when it last worked and,
/// if known, the failure (serialised as its chain of error messages, or `null`).
#[derive(Debug)]
pub struct ToggleDownStatus {
    pub last_operable_tsns: TimestampNs,
    pub failure: Option<Arc<OperationError>>,
}

/// The report of a toggle that does not work.
pub open spec fn down_status_spec(status: ControllerDownToggleStatus) -> ToggleDownStatus {
    ToggleDownStatus { last_operable_tsns: status.last_operable, failure: status.error }
}

impl From<ControllerDownToggleStatus> for ToggleDownStatus {
    fn from(status: ControllerDownToggleStatus) -> (api_status: ToggleDownStatus)
        ensures
            reports_down(status, api_status),
    {
        ToggleDownStatus { last_operable_tsns: status.last_operable, failure: status.error }
    }
}

impl vstd::std_specs::convert::FromSpecImpl<ControllerDownToggleStatus> for ToggleDownStatus {
    open spec fn obeys_from_spec() -> bool {
        true
    }

    open spec fn from_spec(status: ControllerDownToggleStatus) -> ToggleDownStatus {
        down_status_spec(status)
    }
}

/// Why a request failed.
#[derive(Debug)]
pub enum ApiError {
    /// The path does not take this method.
    MethodNotAllowed,
    /// No toggle has this identifier.
    UnknownToggleId(String),
    /// The request to set a toggle names no state.
    MissingState,
    /// The request to set a toggle names this text as state, which is none.
    UnknownState(String),
    /// The service failed inside (serialised as the error's chain of messages).
    Internal(anyhow::Error),
}

/// The HTTP status code of each error.
pub open spec fn api_error_status(err: ApiError) -> u16 {
    match err {
        ApiError::MethodNotAllowed => STATUS_METHOD_NOT_ALLOWED,
        ApiError::UnknownToggleId(_) => STATUS_NOT_FOUND,
        ApiError::UnknownState(_) | ApiError::MissingState => STATUS_BAD_REQUEST,
        _ => STATUS_INTERNAL_SERVER_ERROR,
    }
}

impl ApiError {
    /// The HTTP status code of the error.
    pub fn get_status_code(&self) -> (code: u16)
        ensures
            code == api_error_status(*self),
            *self is MethodNotAllowed ==> code == 405,
            *self is UnknownToggleId ==> code == 404,
            *self is MissingState ==> code == 400,
            *self is UnknownState ==> code == 400,
            *self is Internal ==> code == 500,
    {
        match self {
            ApiError::MethodNotAllowed => STATUS_METHOD_NOT_ALLOWED,
            ApiError::UnknownToggleId(_) => STATUS_NOT_FOUND,
            ApiError::UnknownState(_) | ApiError::MissingState => STATUS_BAD_REQUEST,
            _ => STATUS_INTERNAL_SERVER_ERROR,
        }
    }
}

impl From<ControllerOperationError> for ApiError {
    fn from(err: ControllerOperationError) -> (api_err: ApiError) {
        match err {
            ControllerOperationError::UnknownToggleId(id) => ApiError::UnknownToggleId(id),
            ControllerOperationError::Internal(err) => ApiError::Internal(err),
        }
    }
}

impl vstd::std_specs::convert::FromSpecImpl<ControllerOperationError> for ApiError {
    open spec fn obeys_from_spec() -> bool {
        true
    }

    open spec fn from_spec(err: ControllerOperationError) -> ApiError {
        api_error_of(err)
    }
}

/// The API error for a controller error: an unknown toggle stays one, any
/// other failure is internal, with its cause.
pub open spec fn api_error_of(err: ControllerOperationError) -> ApiError {
    match err {
        ControllerOperationError::UnknownToggleId(id) => ApiError::UnknownToggleId(id),
        ControllerOperationError::Internal(err) => ApiError::Internal(err),
    }
}

/// How an operation went: its result, or the error.
#[derive(Debug)]
pub enum OperationStatus<T> {
    Success(T),
    Error(ApiError),
}

impl From<Result<Vec<String>, ControllerOperationError>> for ResponseBody {
    fn from(res: Result<Vec<String>, ControllerOperationError>) -> (body: ResponseBody) {
        ResponseBody::ToggleList(
            match res {
                Ok(toggles) => OperationStatus::Success(ToggleList::new(toggles)),
                Err(err) => OperationStatus::Error(ApiError::from(err)),
            },
        )
    }
}

impl vstd::std_specs::convert::FromSpecImpl<Result<Vec<String>, ControllerOperationError>> for ResponseBody {
    open spec fn obeys_from_spec() -> bool {
        true
    }

    open spec fn from_spec(res: Result<Vec<String>, ControllerOperationError>) -> ResponseBody {
        ResponseBody::ToggleList(
            match res {
                Ok(toggles) => OperationStatus::Success(ToggleList { toggles }),
                Err(err) => OperationStatus::Error(api_error_of(err)),
            },
        )
    }
}

impl From<Result<ControllerToggleStatus, ControllerOperationError>> for ResponseBody {
    fn from(res: Result<ControllerToggleStatus, ControllerOperationError>) -> (body: ResponseBody) {
        ResponseBody::ToggleGet(
            match res {
                Ok(status) => OperationStatus::Success(ToggleStatus::from(status)),
                Err(err) => OperationStatus::Error(ApiError::from(err)),
            },
        )
    }
}

impl vstd::std_specs::convert::FromSpecImpl<Result<ControllerToggleStatus, ControllerOperationError>> for ResponseBody {
    open spec fn obeys_from_spec() -> bool {
        true
    }

    open spec fn from_spec(res: Result<ControllerToggleStatus, ControllerOperationError>) -> ResponseBody {
        ResponseBody::ToggleGet(
            match res {
                Ok(status) => OperationStatus::Success(toggle_status_of(status)),
                Err(err) => OperationStatus::Error(api_error_of(err)),
            },
        )
    }
}

/// The body of an answer to a method a path does not take.
pub fn method_not_allowed() -> (body: ResponseBody)
    ensures
        body == ResponseBody::Null(OperationStatus::Error(ApiError::MethodNotAllowed)),
{
    ResponseBody::Null(OperationStatus::Error(ApiError::MethodNotAllowed))
}

/// A question to put to the controller.
pub enum ControllerCall {
    /// List the toggles.
    ListToggles,
    /// Read a toggle.
    Get(String),
    /// Set a toggle into a state.
    SetState(String, ToggleState),
}

/// What a request becomes: a question to the controller, whose answer is then
/// turned into a body, or a body at once.
pub enum Plan {
    Call(ControllerCall),
    Reply(ResponseBody),
}

/// What a read request becomes: the list of toggles for the toggle path, the
/// toggle's status for a toggle's path. Reading the meta path is not
/// implemented and panics, so that input is left out.
pub fn plan_get(path: ApiPath) -> (plan: Plan)
    requires
        !(path is Meta),
    ensures
        match path {
            ApiPath::Toggle(None) => plan matches Plan::Call(ControllerCall::ListToggles),
            ApiPath::Toggle(Some(id)) => plan matches Plan::Call(ControllerCall::Get(asked))
                && asked == id,
            ApiPath::Meta => false,
        },
{
    match path {
        ApiPath::Toggle(None) => Plan::Call(ControllerCall::ListToggles),
        ApiPath::Toggle(Some(id)) => Plan::Call(ControllerCall::Get(id)),
        ApiPath::Meta => {
            proof {
                assert(false);
            }
            Plan::Reply(method_not_allowed())
        },
    }
}

/// What a request to set a toggle becomes, given its `state` parameter: the
/// meta and toggle-list paths refuse the method; on a toggle's path a missing
/// parameter and a text that names no state are refused, and a state is set.
pub fn plan_set(path: ApiPath, state_param: Option<String>) -> (plan: Plan)
    ensures
        match path {
            ApiPath::Toggle(Some(id)) => match state_param {
                None => plan == Plan::Reply(
                    ResponseBody::ToggleSet(OperationStatus::Error(ApiError::MissingState)),
                ),
                Some(text) => match parse_toggle_state(text@) {
                    Ok(state) => plan matches Plan::Call(ControllerCall::SetState(asked, s))
                        && asked == id && s == state,
                    Err(_) => plan == Plan::Reply(
                        ResponseBody::ToggleSet(OperationStatus::Error(ApiError::UnknownState(text))),
                    ),
                },
            },
            _ => plan == Plan::Reply(
                ResponseBody::Null(OperationStatus::Error(ApiError::MethodNotAllowed)),
            ),
        },
{
    match path {
        ApiPath::Meta => Plan::Reply(method_not_allowed()),
        ApiPath::Toggle(None) => Plan::Reply(method_not_allowed()),
        ApiPath::Toggle(Some(toggle_id)) => {
            match state_param {
                Some(state) => match ToggleState::parse(state.as_str()) {
                    Ok(parsed) => Plan::Call(ControllerCall::SetState(toggle_id, parsed)),
                    Err(_) => Plan::Reply(
                        ResponseBody::ToggleSet(OperationStatus::Error(ApiError::UnknownState(state))),
                    ),
                },
                None => Plan::Reply(
                    ResponseBody::ToggleSet(OperationStatus::Error(ApiError::MissingState)),
                ),
            }
        },
    }
}

/// An answer whose operation succeeded has status 200; one whose operation
/// failed has a client or server error status (400, 404, 405 or 500).
pub proof fn lemma_status_follows_outcome(body: ResponseBody)
    ensures
        match body {
            ResponseBody::Null(OperationStatus::Success(_))
            | ResponseBody::ToggleList(OperationStatus::Success(_))
            | ResponseBody::ToggleGet(OperationStatus::Success(_))
            | ResponseBody::ToggleSet(OperationStatus::Success(_)) => response_body_status(body)
                == STATUS_OK,
            _ => response_body_status(body) == STATUS_BAD_REQUEST || response_body_status(body)
                == STATUS_NOT_FOUND || response_body_status(body) == STATUS_METHOD_NOT_ALLOWED
                || response_body_status(body) == STATUS_INTERNAL_SERVER_ERROR,
        },
{
}

/// The API reports a controller status as it is: a working toggle as up, with
/// its identifier and the time and state of its observed and commanded
/// snapshots; a toggle that does not work as down, with when it last worked and
/// its failure. It never reports a known status as unknown.
pub proof fn lemma_api_status_reports_controller_status(status: ControllerToggleStatus)
    ensures
        !(toggle_status_of(status) is Unknown),
        status matches ControllerToggleStatus::Up(up) ==> (toggle_status_of(status) matches ToggleStatus::Up(
            report,
        ) && report.id == up.id && report.observed_tsns == up.observed.timestamp
            && report.observed_state == up.observed.state && report.commanded_tsns
            == up.commanded.timestamp && report.commanded_state == up.commanded.state),
        status matches ControllerToggleStatus::Down(down) ==> (toggle_status_of(
            status,
        ) matches ToggleStatus::Down(report) && report.last_operable_tsns == down.last_operable
            && report.failure == down.error),
{
}

/// Each error has its own status code: a refused method 405, an unknown toggle
/// 404, a missing or unknown state 400, an internal failure 500. A body that
/// holds an error has that error's code, whatever the operation; a body whose
/// operation succeeded has 200.
pub proof fn lemma_status_code_of_each_error(err: ApiError)
    ensures
        err is MethodNotAllowed ==> api_error_status(err) == 405,
        err is UnknownToggleId ==> api_error_status(err) == 404,
        err is MissingState ==> api_error_status(err) == 400,
        err is UnknownState ==> api_error_status(err) == 400,
        err is Internal ==> api_error_status(err) == 500,
        response_body_status(ResponseBody::Null(OperationStatus::Error(err))) == api_error_status(err),
        response_body_status(ResponseBody::ToggleList(OperationStatus::Error(err))) == api_error_status(err),
        response_body_status(ResponseBody::ToggleGet(OperationStatus::Error(err))) == api_error_status(err),
        response_body_status(ResponseBody::ToggleSet(OperationStatus::Error(err))) == api_error_status(err),
{
}

/// A body whose operation succeeded has status 200, whatever it holds.
pub proof fn lemma_success_is_ok(list: ToggleList, status: ToggleStatus, other: ToggleStatus)
    ensures
        response_body_status(ResponseBody::Null(OperationStatus::Success(()))) == 200,
        response_body_status(ResponseBody::ToggleList(OperationStatus::Success(list))) == 200,
        response_body_status(ResponseBody::ToggleGet(OperationStatus::Success(status))) == 200,
        response_body_status(ResponseBody::ToggleSet(OperationStatus::Success(other))) == 200,
{
}

} // verus!
