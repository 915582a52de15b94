use toguru::rrch::error::SendError;
use toguru::rrch::server_client;

#[test]
fn send_error_hands_request_back() {
    let err = SendError::new(42u32);
    assert_eq!(err.req, 42);
    assert_eq!(err.message(), "rrch server down");
}

#[test]
fn client_reaches_server() {
    let (mut server, client) = server_client::<u32, u32>(1);
    let (tx, _rx) = tokio::sync::oneshot::channel();
    client.req_tx.try_send((5, tx)).ok().expect("queue has room");
    let (req, _resp_tx) = server.req_rx.try_recv().expect("request arrived");
    assert_eq!(req, 5);
}
