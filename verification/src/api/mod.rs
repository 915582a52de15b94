//! The HTTP API: its paths, its answers and their status codes.
use vstd::prelude::*;

use crate::api::v1::{STATUS_METHOD_NOT_ALLOWED, STATUS_OK};

pub mod v1;

verus! {

/// A point in time, in nanoseconds since the Unix epoch (times before it are 0).
pub type TimestampNs = u128;

/// The paths of the API.
pub enum ApiPath {
    /// `/api/versions`
    Versions,
    /// A path of version 1.
    V1(v1::ApiPath),
}

/// Another name for the paths of version 1.
pub type ApiV1Path = v1::ApiPath;

/// The versions of the API this service speaks.
pub fn supported_apis() -> (versions: &'static [&'static str])
    ensures
        versions@.len() == 1,
        versions@[0]@ == "v1"@,
{
    &["v1"]
}

/// An answer of the API.
#[derive(Debug)]
pub enum Response {
    /// The list of supported versions.
    Versions(&'static [&'static str]),
    /// An answer of one version of the API.
    Api(VersionedApiResponse),
    /// A refusal with this HTTP status code and no body.
    Error(u16),
}

/// The HTTP status code of an answer.
pub open spec fn response_status(resp: Response) -> u16 {
    match resp {
        Response::Versions(_) => STATUS_OK,
        Response::Api(VersionedApiResponse::V1(v1)) => v1::response_body_status(v1.body),
        Response::Error(code) => code,
    }
}

impl Response {
    /// The HTTP status code of the answer.
    pub fn get_status_code(&self) -> (code: u16)
        ensures
            code == response_status(*self),
    {
        match self {
            Response::Versions(_) => STATUS_OK,
            Response::Api(api_resp) => api_resp.get_status_code(),
            Response::Error(status_code) => *status_code,
        }
    }
}

/// An answer tagged with the version of the API that gave it.
#[derive(Debug)]
pub enum VersionedApiResponse {
    V1(v1::Response),
}

/// Another name for a versioned answer.
pub type ApiResponse = VersionedApiResponse;

impl VersionedApiResponse {
    /// The HTTP status code of the answer.
    pub fn get_status_code(&self) -> (code: u16)
        ensures
            code == (match *self {
                VersionedApiResponse::V1(v1) => v1::response_body_status(v1.body),
            }),
    {
        match self {
            VersionedApiResponse::V1(v1) => v1.get_status_code(),
        }
    }
}

/// Where a request goes: answered at once, or on to version 1 with this path.
pub enum Route {
    Reply(Response),
    V1(v1::ApiPath),
}

/// Routes a read: the versions path is answered with the supported versions.
pub fn route_get(path: ApiPath) -> (route: Route)
    ensures
        match path {
            ApiPath::Versions => route matches Route::Reply(Response::Versions(versions))
                && versions@.len() == 1 && versions@[0]@ == "v1"@,
            ApiPath::V1(p) => route == Route::V1(p),
        },
{
    match path {
        ApiPath::Versions => Route::Reply(Response::Versions(supported_apis())),
        ApiPath::V1(path) => Route::V1(path),
    }
}

/// Routes a write: the versions path refuses the method.
pub fn route_post(path: ApiPath) -> (route: Route)
    ensures
        match path {
            ApiPath::Versions => route == Route::Reply(Response::Error(STATUS_METHOD_NOT_ALLOWED)),
            ApiPath::V1(p) => route == Route::V1(p),
        },
{
    match path {
        ApiPath::Versions => Route::Reply(Response::Error(STATUS_METHOD_NOT_ALLOWED)),
        ApiPath::V1(path) => Route::V1(path),
    }
}

} // verus!
