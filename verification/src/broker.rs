//! The broker: it knows the actuator of each switch, answers the list of
//! switches itself and forwards every other request to the switch's actuator.
use std::sync::Arc;

use vstd::prelude::*;

use crate::actuators::{actuator_request_switch_id, ActuatorRequest, ActuatorResponse};
use crate::id_map::IdMap;
use crate::rrch;
use crate::{SwitchOperationalStatus, SwitchToggleState};

verus! {

/// The client through which the broker talks to one actuator.
pub type ActuatorClient = rrch::Client<ActuatorRequest, ActuatorResponse>;

/// A broker with no actuators yet, and the client that sends it requests. The
/// request queue holds `req_queue` requests; it cannot be empty nor hold more
/// than `usize::MAX / 8`.
pub fn broker(req_queue: usize) -> (pair: (Broker, rrch::Client<BrokerRequest, BrokerResponse>))
    requires
        0 < req_queue <= usize::MAX / 8,
    ensures
        pair.0.actuator_map@ == Map::<Seq<char>, ActuatorClient>::empty(),
        rrch::joined(pair.0.req_rx, pair.1),
{
    let (server, client) = rrch::server_client(req_queue);
    (Broker::new(server), client)
}

/// The broker's state: where its requests come from, and the actuator of each
/// switch.
pub struct Broker {
    pub req_rx: rrch::Server<BrokerRequest, BrokerResponse>,
    pub actuator_map: IdMap<ActuatorClient>,
}

impl Broker {
    /// A broker that takes its requests from `req_rx` and knows no actuator.
    pub fn new(req_rx: rrch::Server<BrokerRequest, BrokerResponse>) -> (broker: Self)
        ensures
            broker.req_rx == req_rx,
            broker.actuator_map@ == Map::<Seq<char>, ActuatorClient>::empty(),
    {
        Broker { req_rx, actuator_map: IdMap::new() }
    }

    /// Registers the actuator of switch `id`, replacing any earlier one, which
    /// is handed back.
    pub fn add(&mut self, id: String, actuator_client: ActuatorClient) -> (previous: Option<ActuatorClient>)
        ensures
            final(self).actuator_map@ == old(self).actuator_map@.insert(id@, actuator_client),
            final(self).req_rx == old(self).req_rx,
            final(self).actuator_map@.len() == old(self).actuator_map@.len() + (if previous is None {
                1int
            } else {
                0int
            }),
            previous == (if old(self).actuator_map@.contains_key(id@) {
                Some(old(self).actuator_map@[id@])
            } else {
                None
            }),
    {
        let ghost before = self.actuator_map@;
        let previous = self.actuator_map.insert(id, actuator_client);
        proof {
            if before.contains_key(id@) {
                assert(before.insert(id@, actuator_client).dom() =~= before.dom());
            } else {
                assert(before.insert(id@, actuator_client).dom() =~= before.dom().insert(id@));
            }
        }
        previous
    }
}

/// The text of the error for a request about a switch the broker does not know.
pub open spec fn unknown_switch_message(id: Seq<char>) -> Seq<char> {
    "unknown switch: \""@ + id + "\""@
}

/// What the broker does with a request.
pub enum BrokerAction<'a> {
    /// Answer at once.
    Respond(BrokerResponse),
    /// Send the request to this actuator and pass on its answer.
    Transact(&'a ActuatorClient, ActuatorRequest),
    /// Answer with an error with this text.
    Reject(String),
}

/// Decides what to do with a request. A list request is answered with the
/// identifiers of all switches, each once; a request about a known switch goes
/// to its actuator as the same kind of request; a request about an unknown
/// switch is rejected with `unknown switch: "<id>"`.
pub fn process_request<'a>(req: BrokerRequest, actuator_map: &'a IdMap<ActuatorClient>) -> (action: BrokerAction<'a>)
    ensures
        match req {
            BrokerRequest::List => action matches BrokerAction::Respond(BrokerResponse::List(ids)) && (
            forall|i: int, j: int|
                0 <= i < ids@.len() && 0 <= j < ids@.len() && i != j ==> #[trigger] ids@[i]@
                    != #[trigger] ids@[j]@) && (forall|k: Seq<char>|
                actuator_map@.contains_key(k) <==> exists|i: int|
                    0 <= i < ids@.len() && #[trigger] ids@[i]@ == k),
            BrokerRequest::Get(id) => if actuator_map@.contains_key(id@) {
                action matches BrokerAction::Transact(client, ActuatorRequest::Get(sent))
                    && *client == actuator_map@[id@] && sent@ == id@
            } else {
                action matches BrokerAction::Reject(text) && text@ == unknown_switch_message(id@)
            },
            BrokerRequest::SetState(id, state) => if actuator_map@.contains_key(id@) {
                action matches BrokerAction::Transact(
                    client,
                    ActuatorRequest::SetState(sent, sent_state),
                ) && *client == actuator_map@[id@] && sent@ == id@ && sent_state == state
            } else {
                action matches BrokerAction::Reject(text) && text@ == unknown_switch_message(id@)
            },
        },
{
    match req {
        BrokerRequest::List => BrokerAction::Respond(BrokerResponse::List(actuator_map.keys())),
        BrokerRequest::Get(id) => match actuator_map.get(id.as_str()) {
            Some(client) => BrokerAction::Transact(client, ActuatorRequest::Get(id)),
            None => BrokerAction::Reject(unknown_switch(&id)),
        },
        BrokerRequest::SetState(id, state) => match actuator_map.get(id.as_str()) {
            Some(client) => BrokerAction::Transact(client, ActuatorRequest::SetState(id, state)),
            None => BrokerAction::Reject(unknown_switch(&id)),
        },
    }
}

/// The text of the error for an unknown switch.
fn unknown_switch(id: &String) -> (text: String)
    ensures
        text@ == unknown_switch_message(id@),
{
    let mut text = String::from_str("unknown switch: \"");
    text.append(id.as_str());
    text.append("\"");
    text
}

/// How an exchange with an actuator ended.
pub enum TransactOutcome {
    /// The actuator answered.
    Answered(ActuatorResponse),
    /// The actuator took the request but dropped the answer channel.
    AnswerDropped,
    /// The actuator's request channel was closed; the request came back.
    RequestRejected(ActuatorRequest),
}

/// The text of the error when the actuator dropped its answer channel.
pub open spec fn answer_dropped_message() -> Seq<char> {
    "actuator response channel closed before sending"@
}

/// The text of the error when the actuator of switch `id` is gone.
pub open spec fn actuator_closed_message(id: Seq<char>) -> Seq<char> {
    "actuator channel mapped to \""@ + id + "\" closed"@
}

/// Turns the end of an exchange with an actuator into the broker's answer:
/// the actuator's answer of the same kind, or the text of an error when the
/// exchange failed.
pub fn transact_actuator(outcome: TransactOutcome) -> (res: Result<BrokerResponse, String>)
    ensures
        match outcome {
            TransactOutcome::Answered(ActuatorResponse::Get(id, status)) => res matches Ok(
                BrokerResponse::Get(rid, rstatus),
            ) && rid == id && rstatus == status,
            TransactOutcome::Answered(ActuatorResponse::SetState(id, status)) => res matches Ok(
                BrokerResponse::SetState(rid, rstatus),
            ) && rid == id && rstatus == status,
            TransactOutcome::Answered(ActuatorResponse::Error(err)) => res matches Ok(
                BrokerResponse::Error(rerr),
            ) && rerr == err,
            TransactOutcome::AnswerDropped => res matches Err(text) && text@
                == answer_dropped_message(),
            TransactOutcome::RequestRejected(req) => res matches Err(text) && text@
                == actuator_closed_message(actuator_request_switch_id(req)),
        },
{
    match outcome {
        TransactOutcome::Answered(resp) => match resp {
            ActuatorResponse::Get(id, status) => Ok(BrokerResponse::Get(id, status)),
            ActuatorResponse::SetState(id, status) => Ok(BrokerResponse::SetState(id, status)),
            ActuatorResponse::Error(err) => Ok(BrokerResponse::Error(err)),
        },
        TransactOutcome::AnswerDropped => Err(
            String::from_str("actuator response channel closed before sending"),
        ),
        TransactOutcome::RequestRejected(req) => {
            let id = req.into_switch_id();
            let mut text = String::from_str("actuator channel mapped to \"");
            text.append(id.as_str());
            text.append("\" closed");
            Err(text)
        },
    }
}

/// A request to the broker.
#[derive(Debug, Clone)]
pub enum BrokerRequest {
    /// List the switches.
    List,
    /// Report a switch's status.
    Get(String),
    /// Move a switch into a state.
    SetState(String, SwitchToggleState),
}

impl BrokerRequest {
    /// The switch the request is about; a list request is about none.
    pub fn into_switch_id(self) -> (id: Option<String>)
        ensures
            match self {
                BrokerRequest::List => id.is_none(),
                BrokerRequest::Get(s) => id == Some(s),
                BrokerRequest::SetState(s, _) => id == Some(s),
            },
    {
        match self {
            BrokerRequest::List => None,
            BrokerRequest::Get(id) => Some(id),
            BrokerRequest::SetState(id, ..) => Some(id),
        }
    }
}

/// The broker's answer.
#[derive(Debug, Clone)]
pub enum BrokerResponse {
    List(Vec<String>),
    Get(String, SwitchOperationalStatus),
    SetState(String, SwitchOperationalStatus),
    Error(Arc<anyhow::Error>),
}

/// After an actuator is registered for a switch, the switch is known and its
/// requests go to that actuator, whatever was registered before.
pub proof fn lemma_registered_actuator_is_used(
    before: Map<Seq<char>, ActuatorClient>,
    id: Seq<char>,
    client: ActuatorClient,
)
    ensures
        before.insert(id, client).contains_key(id),
        before.insert(id, client)[id] == client,
{
}

} // verus!
