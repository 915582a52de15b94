//! Request/response channels: a client sends a request together with a
//! one-shot channel on which the server answers.
use vstd::prelude::*;

pub mod error;

verus! {

/// A request paired with the channel for its answer.
pub type Envelope<ReqT, RespT> = (ReqT, tokio::sync::oneshot::Sender<RespT>);

/// A server and a client joined by a queue of `req_queue` requests. The queue
/// cannot be empty nor hold more than `usize::MAX / 8` requests.
pub fn server_client<ReqT, RespT>(req_queue: usize) -> (pair: (Server<ReqT, RespT>, Client<ReqT, RespT>))
    requires
        0 < req_queue <= usize::MAX / 8,
    ensures
        joined(pair.0, pair.1),
{
    let (req_tx, req_rx) = crate::outside::mpsc_channel(req_queue);
    let ghost paired = req_tx;
    let mut server = Server::new(req_rx);
    server.peer = Ghost(paired);
    (server, Client::new(req_tx))
}

/// Whether the client's sender is the one recorded with the server's queue,
/// that is the two ends were taken from one channel call.
pub open spec fn joined<ReqT, RespT>(server: Server<ReqT, RespT>, client: Client<ReqT, RespT>) -> bool {
    server.peer@ == client.req_tx
}

/// The end that takes requests and answers them.
#[verifier::reject_recursive_types(ReqT)]
#[verifier::reject_recursive_types(RespT)]
pub struct Server<ReqT, RespT> {
    /// The queue of incoming requests.
    pub req_rx: tokio::sync::mpsc::Receiver<Envelope<ReqT, RespT>>,
    /// The sender the library recorded beside the queue when it made the
    /// server: the sending half it took from the same channel call (kept for
    /// proofs only; a server made by `new` records nothing known).
    pub peer: Ghost<tokio::sync::mpsc::Sender<Envelope<ReqT, RespT>>>,
}

impl<ReqT, RespT> Server<ReqT, RespT> {
    /// The server that takes its requests from `req_rx`.
    pub fn new(req_rx: tokio::sync::mpsc::Receiver<Envelope<ReqT, RespT>>) -> (server: Self)
        ensures
            server.req_rx == req_rx,
    {
        Server { req_rx, peer: Ghost(vstd::pervasive::arbitrary()) }
    }
}

/// The end that sends requests; it can be cloned.
#[derive(Clone)]
#[verifier::reject_recursive_types(ReqT)]
#[verifier::reject_recursive_types(RespT)]
pub struct Client<ReqT, RespT> {
    /// The queue of outgoing requests.
    pub req_tx: tokio::sync::mpsc::Sender<Envelope<ReqT, RespT>>,
}

impl<ReqT, RespT> Client<ReqT, RespT> {
    /// The client that sends its requests on `req_tx`.
    pub fn new(req_tx: tokio::sync::mpsc::Sender<Envelope<ReqT, RespT>>) -> (client: Self)
        ensures
            client.req_tx == req_tx,
    {
        Client { req_tx }
    }
}

} // verus!
