//! Trusted boundary to the wrapped MQTT library.
//!
//! The types declared here are opaque carriers: the adapter builds them,
//! hands them to the caller or to the library, and never looks inside.
//! Each wrapper makes exactly one call into the library; its contract
//! states only what the library's source shows of every outcome.

use vstd::prelude::*;
use crate::errors::RequestError;
use crate::qos::QualityOfService;
use crate::topic::{valid_filter, valid_topic};

verus! {

#[verifier::external_type_specification]
#[verifier::external_body]
pub struct ExMqttOptions(rumqttc::MqttOptions);

#[verifier::external_type_specification]
#[verifier::external_body]
pub struct ExClient(rumqttc::Client);

#[verifier::external_type_specification]
#[verifier::external_body]
pub struct ExConnection(rumqttc::Connection);

#[verifier::external_type_specification]
#[verifier::external_body]
pub struct ExAsyncClient(rumqttc::AsyncClient);

#[verifier::external_type_specification]
#[verifier::external_body]
pub struct ExEventLoop(rumqttc::EventLoop);

#[verifier::external_type_specification]
#[verifier::external_body]
pub struct ExQoS(rumqttc::QoS);

/// Relies on rumqttc::QoS: its three levels correspond one to one to the
/// library's [`QualityOfService`].
#[verifier::external_body]
fn qos_value(qos: QualityOfService) -> rumqttc::QoS {
    match qos {
        QualityOfService::AtMostOnce => rumqttc::QoS::AtMostOnce,
        QualityOfService::AtLeastOnce => rumqttc::QoS::AtLeastOnce,
        QualityOfService::ExactlyOnce => rumqttc::QoS::ExactlyOnce,
    }
}

/// Relies on rumqttc::MqttOptions::new: builds connection options for the
/// given client identity, broker host and port.
#[verifier::external_body]
pub(crate) fn options_new(client_id: &str, host: &str, port: u16) -> rumqttc::MqttOptions {
    rumqttc::MqttOptions::new(client_id, host, port)
}

/// Relies on rumqttc::MqttOptions::set_transport with Transport::tls:
/// wires the CA chain and the client certificate / key pair for mutual
/// TLS, with no ALPN protocols.
#[verifier::external_body]
pub(crate) fn options_set_tls(
    options: &mut rumqttc::MqttOptions,
    ca: Vec<u8>,
    client_cert: Vec<u8>,
    client_key: Vec<u8>,
) {
    let transport = rumqttc::Transport::tls(ca, Some((client_cert, client_key)), None);
    options.set_transport(transport);
}

/// Relies on rumqttc::MqttOptions::set_keep_alive: sets the keep-alive
/// interval to the given number of seconds.
#[verifier::external_body]
pub(crate) fn options_set_keep_alive(options: &mut rumqttc::MqttOptions, secs: u64) {
    options.set_keep_alive(std::time::Duration::from_secs(secs));
}

/// Relies on rumqttc::Client::new: yields the send-capable handle and the
/// receive-capable connection object, with the given bound on pending
/// requests.  Its source constructs the pair and cannot fail.
#[verifier::external_body]
pub(crate) fn client_new(options: rumqttc::MqttOptions, cap: usize) -> (rumqttc::Client, rumqttc::Connection) {
    rumqttc::Client::new(options, cap)
}

/// Relies on rumqttc::AsyncClient::new: as `client_new`, but yields the
/// event-loop object the caller must keep polling.
#[verifier::external_body]
pub(crate) fn async_client_new(options: rumqttc::MqttOptions, cap: usize) -> (rumqttc::AsyncClient, rumqttc::EventLoop) {
    rumqttc::AsyncClient::new(options, cap)
}

/// Relies on rumqttc::Client::subscribe, whose source rejects exactly the
/// invalid filters before enqueueing the request: success implies the
/// filter is valid, an invalid filter always fails, and a valid one fails
/// only if the request queue has shut down.
#[verifier::external_body]
pub(crate) fn client_subscribe(
    client: &rumqttc::Client,
    topic: String,
    qos: QualityOfService,
) -> (r: Result<(), RequestError>)
    ensures
        r is Ok ==> valid_filter(topic@),
        !valid_filter(topic@) ==> r is Err,
        r is Err ==> r->Err_0 == RequestError::SendFailed,
{
    match client.subscribe(topic, qos_value(qos)) {
        Ok(()) => Ok(()),
        Err(_) => Err(RequestError::SendFailed),
    }
}

/// Relies on rumqttc::Client::publish, whose source rejects exactly the
/// wildcard-holding topics before enqueueing the request: success implies
/// the topic is valid, an invalid topic always fails, and a valid one
/// fails only if the request queue has shut down.
#[verifier::external_body]
pub(crate) fn client_publish(
    client: &rumqttc::Client,
    topic: String,
    qos: QualityOfService,
    retain: bool,
    payload: &str,
) -> (r: Result<(), RequestError>)
    ensures
        r is Ok ==> valid_topic(topic@),
        !valid_topic(topic@) ==> r is Err,
        r is Err ==> r->Err_0 == RequestError::SendFailed,
{
    match client.publish(topic, qos_value(qos), retain, payload) {
        Ok(()) => Ok(()),
        Err(_) => Err(RequestError::SendFailed),
    }
}

/// Relies on rumqttc::AsyncClient::try_subscribe: as `client_subscribe`,
/// but without blocking — a valid filter fails when the request queue is
/// full or has shut down.
#[verifier::external_body]
pub(crate) fn async_client_try_subscribe(
    client: &rumqttc::AsyncClient,
    topic: String,
    qos: QualityOfService,
) -> (r: Result<(), RequestError>)
    ensures
        r is Ok ==> valid_filter(topic@),
        !valid_filter(topic@) ==> r is Err,
        r is Err ==> r->Err_0 == RequestError::SendFailed,
{
    match client.try_subscribe(topic, qos_value(qos)) {
        Ok(()) => Ok(()),
        Err(_) => Err(RequestError::SendFailed),
    }
}

/// Relies on rumqttc::AsyncClient::try_publish: as `client_publish`, but
/// without blocking — a valid topic fails when the request queue is full
/// or has shut down.
#[verifier::external_body]
pub(crate) fn async_client_try_publish(
    client: &rumqttc::AsyncClient,
    topic: String,
    qos: QualityOfService,
    retain: bool,
    payload: &str,
) -> (r: Result<(), RequestError>)
    ensures
        r is Ok ==> valid_topic(topic@),
        !valid_topic(topic@) ==> r is Err,
        r is Err ==> r->Err_0 == RequestError::SendFailed,
{
    match client.try_publish(topic, qos_value(qos), retain, payload) {
        Ok(()) => Ok(()),
        Err(_) => Err(RequestError::SendFailed),
    }
}

} // verus!
