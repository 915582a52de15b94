//! Declarations of the outside types that the library carries, and the calls
//! into outside crates that it makes. Each contract here is believed, not
//! proved: it restates what the outside crate's source shows.
use vstd::prelude::*;

verus! {

/// `anyhow::Error`, carried through unopened.
#[verifier::external_type_specification]
#[verifier::external_body]
pub struct ExAnyhowError(anyhow::Error);

/// `serde_json::Value`, carried through unopened.
#[verifier::external_type_specification]
#[verifier::external_body]
pub struct ExJsonValue(serde_json::Value);

/// `Clone` of `serde_json::Value`, which its crate derives; the copy is opaque
/// here, so nothing is claimed of it.
pub assume_specification[ <serde_json::Value as Clone>::clone ](value: &serde_json::Value) -> (copy: serde_json::Value);

/// The sending half of a bounded `tokio` channel.
#[verifier::external_type_specification]
#[verifier::external_body]
#[verifier::reject_recursive_types(T)]
pub struct ExMpscSender<T>(tokio::sync::mpsc::Sender<T>);

/// `Clone` of `tokio::sync::mpsc::Sender`: it copies the handle to the same
/// channel (only the count of senders, kept inside the channel, goes up), so
/// the copy is the same handle.
pub assume_specification<T>[ <tokio::sync::mpsc::Sender<T> as Clone>::clone ](
    sender: &tokio::sync::mpsc::Sender<T>,
) -> (copy: tokio::sync::mpsc::Sender<T>)
    ensures
        copy == *sender,
;

/// The receiving half of a bounded `tokio` channel.
#[verifier::external_type_specification]
#[verifier::external_body]
#[verifier::reject_recursive_types(T)]
pub struct ExMpscReceiver<T>(tokio::sync::mpsc::Receiver<T>);

/// The sending half of a `tokio` one-shot channel.
#[verifier::external_type_specification]
#[verifier::external_body]
#[verifier::reject_recursive_types(T)]
pub struct ExOneshotSender<T>(tokio::sync::oneshot::Sender<T>);

/// The sending half of a `tokio` broadcast channel.
#[verifier::external_type_specification]
#[verifier::external_body]
#[verifier::reject_recursive_types(T)]
pub struct ExBroadcastSender<T>(tokio::sync::broadcast::Sender<T>);

/// A receiving half of a `tokio` broadcast channel.
#[verifier::external_type_specification]
#[verifier::external_body]
#[verifier::reject_recursive_types(T)]
pub struct ExBroadcastReceiver<T>(tokio::sync::broadcast::Receiver<T>);

/// The error of a receive on a `tokio` broadcast channel.
#[verifier::external_type_specification]
#[verifier::external_body]
pub struct ExBroadcastRecvError(tokio::sync::broadcast::error::RecvError);

/// `rumqttc::MqttOptions`, carried through unopened.
#[verifier::external_type_specification]
#[verifier::external_body]
pub struct ExMqttOptions(rumqttc::MqttOptions);

/// The options `rumqttc::MqttOptions::new` builds for a client identifier, a
/// broker host and a port.
pub uninterp spec fn mqtt_options_of(client_id: Seq<char>, host: Seq<char>, port: u16) -> rumqttc::MqttOptions;

/// The options that `rumqttc::MqttOptions::set_keep_alive` leaves after setting
/// the keep-alive interval of `options` to `keep_alive`.
pub uninterp spec fn keep_alive_set(options: rumqttc::MqttOptions, keep_alive: std::time::Duration) -> rumqttc::MqttOptions;

/// The whole number of nanoseconds in a duration, as `Duration::as_nanos` gives it.
pub uninterp spec fn duration_nanos(duration: std::time::Duration) -> u128;

/// Calls `std::time::Duration::as_nanos`: the whole number of nanoseconds in
/// the duration, named `duration_nanos`.
#[verifier::external_body]
pub(crate) fn duration_as_nanos(duration: std::time::Duration) -> (nanos: u128)
    ensures
        nanos == duration_nanos(duration),
{
    duration.as_nanos()
}

/// Calls `rumqttc::MqttOptions::new`, which only stores its arguments beside
/// fixed defaults, so its result is a function of them: `mqtt_options_of`.
#[verifier::external_body]
pub(crate) fn mqtt_options_new(client_id: String, host: String, port: u16) -> (options: rumqttc::MqttOptions)
    ensures
        options == mqtt_options_of(client_id@, host@, port),
{
    rumqttc::MqttOptions::new(client_id, host, port)
}

/// Calls `rumqttc::MqttOptions::set_keep_alive`, which asserts that the
/// duration is zero or at least a second (so `requires` leaves the rest out).
/// It only stores the interval, so the options after it are a function of the
/// options before and the interval: `keep_alive_set`.
#[verifier::external_body]
pub(crate) fn mqtt_options_set_keep_alive(options: &mut rumqttc::MqttOptions, keep_alive: std::time::Duration)
    requires
        duration_nanos(keep_alive) == 0 || duration_nanos(keep_alive) >= 1_000_000_000,
    ensures
        *final(options) == keep_alive_set(*old(options), keep_alive),
{
    options.set_keep_alive(keep_alive);
}

/// Calls `tokio::sync::mpsc::channel`, which asserts that the buffer is not
/// zero and whose semaphore asserts that it is at most `usize::MAX >> 3`. The
/// two halves are opaque: nothing is claimed of them.
#[verifier::external_body]
pub(crate) fn mpsc_channel<T>(buffer: usize) -> (halves: (
    tokio::sync::mpsc::Sender<T>,
    tokio::sync::mpsc::Receiver<T>,
))
    requires
        0 < buffer <= usize::MAX / 8,
{
    tokio::sync::mpsc::channel(buffer)
}

/// Calls `tokio::sync::broadcast::channel`, which asserts that the capacity is
/// not zero and at most `usize::MAX / 2`. The halves are opaque.
#[verifier::external_body]
pub(crate) fn broadcast_channel<T: Clone>(capacity: usize) -> (halves: (
    tokio::sync::broadcast::Sender<T>,
    tokio::sync::broadcast::Receiver<T>,
))
    requires
        0 < capacity <= usize::MAX / 2,
{
    tokio::sync::broadcast::channel(capacity)
}

/// Calls `tokio::sync::broadcast::Sender::subscribe`. It asserts that fewer
/// than `usize::MAX >> 2` receivers exist; the count is not visible here, so
/// that bound is left unstated.
#[verifier::external_body]
pub(crate) fn broadcast_subscribe<T>(
    sender: &tokio::sync::broadcast::Sender<T>,
) -> (receiver: tokio::sync::broadcast::Receiver<T>) {
    sender.subscribe()
}

/// Calls `tokio::sync::broadcast::Receiver::resubscribe`, with the same
/// unstated bound on the number of receivers as `broadcast_subscribe`.
#[verifier::external_body]
pub(crate) fn broadcast_resubscribe<T: Clone>(
    receiver: &tokio::sync::broadcast::Receiver<T>,
) -> (other: tokio::sync::broadcast::Receiver<T>) {
    receiver.resubscribe()
}

/// What tells the variants of a broadcast receive error apart: `None` for
/// `Closed`, `Some(n)` for `Lagged(n)`.
pub uninterp spec fn recv_error_lag_of(err: tokio::sync::broadcast::error::RecvError) -> Option<u64>;

/// Tells the two variants of `tokio::sync::broadcast::error::RecvError` apart:
/// `None` for `Closed`, `Some(n)` for `Lagged(n)`, named `recv_error_lag_of`.
#[verifier::external_body]
pub(crate) fn recv_error_lag(err: tokio::sync::broadcast::error::RecvError) -> (lag: Option<u64>)
    ensures
        lag == recv_error_lag_of(err),
{
    match err {
        tokio::sync::broadcast::error::RecvError::Closed => None,
        tokio::sync::broadcast::error::RecvError::Lagged(lag) => Some(lag),
    }
}

/// The JSON value `null` (`serde_json::Value::Null`); the value is opaque here.
#[verifier::external_body]
pub(crate) fn json_null() -> (value: serde_json::Value) {
    serde_json::Value::Null
}

} // verus!
