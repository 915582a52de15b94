//! What the HTTP front end says about a switch.
use std::sync::Arc;

use vstd::prelude::*;

use crate::{toggle_state_name, SwitchOperationalStatus};

verus! {

/// The detail given with a switch's status: its state, or why it failed.
pub enum SwitchStateDetail {
    State(String),
    FailureReason(Arc<anyhow::Error>),
}

/// The word for a switch's status in an answer.
pub open spec fn status_word(status: SwitchOperationalStatus) -> Seq<char> {
    match status {
        SwitchOperationalStatus::Unknown => "unknown"@,
        SwitchOperationalStatus::Transitioning(_) => "transitioning"@,
        SwitchOperationalStatus::Confirmed(_) => "confirmed"@,
        SwitchOperationalStatus::Failure(_) => "failure"@,
    }
}

/// The word and the detail that describe a switch's status: a switch on its
/// way to a state or in a confirmed state is given with that state's name, a
/// failed switch with its error. A status that is still unknown has neither,
/// which cannot be answered, so that input is left out.
pub fn switch_state_resp_payload_v1(status: SwitchOperationalStatus) -> (payload: (String, SwitchStateDetail))
    requires
        !(status is Unknown),
    ensures
        payload.0@ == status_word(status),
        match status {
            SwitchOperationalStatus::Transitioning(state) => payload.1 matches SwitchStateDetail::State(name)
                && name@ == toggle_state_name(state),
            SwitchOperationalStatus::Confirmed(state) => payload.1 matches SwitchStateDetail::State(name)
                && name@ == toggle_state_name(state),
            SwitchOperationalStatus::Failure(err) => payload.1 matches SwitchStateDetail::FailureReason(e)
                && e == err,
            SwitchOperationalStatus::Unknown => false,
        },
{
    match status {
        SwitchOperationalStatus::Transitioning(state) => (
            String::from_str("transitioning"),
            SwitchStateDetail::State(state.to_string()),
        ),
        SwitchOperationalStatus::Confirmed(state) => (
            String::from_str("confirmed"),
            SwitchStateDetail::State(state.to_string()),
        ),
        SwitchOperationalStatus::Failure(err) => (
            String::from_str("failure"),
            SwitchStateDetail::FailureReason(err),
        ),
        SwitchOperationalStatus::Unknown => {
            proof {
                assert(false);
            }
            (String::from_str("unknown"), SwitchStateDetail::State(String::new()))
        },
    }
}

/// The HTTP status code of an answer whose subsystem refused the request.
pub const STATUS_SERVICE_UNAVAILABLE: u16 = 503;

/// What the subsystem behind the front end answered a request with.
pub enum ApiAnswer<T> {
    /// The answer that was asked for.
    Answered(T),
    /// An error answer, given as its text.
    Refused(String),
    /// An answer of another kind.
    Unexpected,
    /// No answer: the request could not be handed over.
    TransactFailed,
}

/// What the front end replies: the payload, or the text of an error.
pub enum SwitchReply<T> {
    Payload(T),
    Error(String),
}

/// The status code and the error text of a reply to an answer that is not
/// the one asked for.
pub open spec fn failed_reply_of<T>(answer: ApiAnswer<T>) -> (u16, Seq<char>) {
    match answer {
        ApiAnswer::Refused(text) => (STATUS_SERVICE_UNAVAILABLE, "failed to list switches: "@ + text@),
        ApiAnswer::Unexpected => (
            crate::api::v1::STATUS_INTERNAL_SERVER_ERROR,
            "unexpected response from API subsystem"@,
        ),
        _ => (crate::api::v1::STATUS_INTERNAL_SERVER_ERROR, "failed to transact with API subsystem"@),
    }
}

/// The reply to an answer that is not the one asked for.
fn failed_reply<T, U>(answer: ApiAnswer<T>) -> (reply: (u16, SwitchReply<U>))
    requires
        !(answer is Answered),
    ensures
        reply.0 == failed_reply_of(answer).0,
        reply.1 matches SwitchReply::Error(text) && text@ == failed_reply_of(answer).1,
{
    match answer {
        ApiAnswer::Refused(text) => {
            let mut message = String::from_str("failed to list switches: ");
            message.append(text.as_str());
            (STATUS_SERVICE_UNAVAILABLE, SwitchReply::Error(message))
        },
        ApiAnswer::Unexpected => (
            crate::api::v1::STATUS_INTERNAL_SERVER_ERROR,
            SwitchReply::Error(String::from_str("unexpected response from API subsystem")),
        ),
        _ => (
            crate::api::v1::STATUS_INTERNAL_SERVER_ERROR,
            SwitchReply::Error(String::from_str("failed to transact with API subsystem")),
        ),
    }
}

/// The reply to a request for the list of switches: the list with 200 when it
/// came; 503 with `failed to list switches: <error>` when the subsystem refused;
/// 500 with a text that says what went wrong otherwise.
pub fn get_switch_list_v1(answer: ApiAnswer<Vec<String>>) -> (reply: (u16, SwitchReply<Vec<String>>))
    ensures
        match answer {
            ApiAnswer::Answered(switches) => reply.1 matches SwitchReply::Payload(list) && list
                == switches && reply.0 == crate::api::v1::STATUS_OK,
            _ => reply.1 matches SwitchReply::Error(text) && text@ == failed_reply_of(answer).1
                && reply.0 == failed_reply_of(answer).0,
        },
{
    match answer {
        ApiAnswer::Answered(switches) => (crate::api::v1::STATUS_OK, SwitchReply::Payload(switches)),
        other => failed_reply(other),
    }
}

/// Whether `detail` describes `status`: a state by its name, a failure by its
/// error.
pub open spec fn describes(status: SwitchOperationalStatus, detail: SwitchStateDetail) -> bool {
    match status {
        SwitchOperationalStatus::Transitioning(state) | SwitchOperationalStatus::Confirmed(state) => detail matches SwitchStateDetail::State(name) && name@ == toggle_state_name(state),
        SwitchOperationalStatus::Failure(err) => detail matches SwitchStateDetail::FailureReason(e) && e == err,
        SwitchOperationalStatus::Unknown => false,
    }
}

/// The reply to a request for one switch's state: 200 with the switch's
/// identifier, status word and detail when its status came (an unknown status
/// cannot be described, so that input is left out); otherwise as for the list.
pub fn get_switch_state_v1(answer: ApiAnswer<(String, SwitchOperationalStatus)>) -> (reply: (
    u16,
    SwitchReply<(String, String, SwitchStateDetail)>,
))
    requires
        answer matches ApiAnswer::Answered((_, status)) ==> !(status is Unknown),
    ensures
        match answer {
            ApiAnswer::Answered((switch, status)) => reply.1 matches SwitchReply::Payload(
                (id, word, detail),
            ) && id == switch && word@ == status_word(status) && reply.0 == crate::api::v1::STATUS_OK
                && describes(status, detail),
            _ => reply.1 matches SwitchReply::Error(text) && text@ == failed_reply_of(answer).1
                && reply.0 == failed_reply_of(answer).0,
        },
{
    match answer {
        ApiAnswer::Answered((switch, status)) => {
            let (word, detail) = switch_state_resp_payload_v1(status);
            (crate::api::v1::STATUS_OK, SwitchReply::Payload((switch, word, detail)))
        },
        other => failed_reply(other),
    }
}

} // verus!
