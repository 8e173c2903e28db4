//! The client adapters: a blocking variant and a concurrent variant.
//!
//! Each adapter turns settings and credential bytes into protocol
//! connection options — fixed TLS port, fixed keep-alive interval, fixed
//! request-queue capacity — and produces the paired send-capable handle
//! and receive-capable connection object of the wrapped library.
//! Construction fails atomically when a credential is missing: no partial
//! resources are created.  `subscribe` and `publish` report failures as
//! recoverable errors instead of aborting.

use vstd::prelude::*;
use crate::errors::{ConnectError, CredentialKind, RequestError};
use crate::mqtt::{
    async_client_new, async_client_try_publish, async_client_try_subscribe, client_new,
    client_publish, client_subscribe, options_new, options_set_keep_alive, options_set_tls,
};
use crate::qos::QualityOfService;
use crate::settings::AWSIoTSettings;
use crate::topic::{check_filter, check_topic, valid_filter, valid_topic};

verus! {

/// The TLS port every connection uses.
pub const MQTT_TLS_PORT: u16 = 8883;

/// The keep-alive interval handed to the wrapped library, in seconds.
pub const KEEP_ALIVE_SECS: u64 = 10;

/// The bound on pending requests between a client handle and its event
/// loop.
pub const REQUEST_QUEUE_CAPACITY: usize = 10;

/// The configuration a successful connect hands to the wrapped library.
pub struct BrokerSetup {
    pub client_id: Seq<char>,
    pub endpoint: Seq<char>,
    pub port: u16,
    pub keep_alive_secs: u64,
    pub queue_capacity: usize,
}

/// The configuration owed to a client identity and a broker endpoint: the
/// fixed TLS port, keep-alive interval and request-queue bound.
pub open spec fn setup_for(client_id: Seq<char>, endpoint: Seq<char>) -> BrokerSetup {
    BrokerSetup {
        client_id: client_id,
        endpoint: endpoint,
        port: MQTT_TLS_PORT,
        keep_alive_secs: KEEP_ALIVE_SECS,
        queue_capacity: REQUEST_QUEUE_CAPACITY,
    }
}

/// The first credential whose bytes are missing, in the order a connect
/// loads them: CA chain, client certificate, client key.
pub open spec fn missing_credential(
    ca: Option<Vec<u8>>,
    client_cert: Option<Vec<u8>>,
    client_key: Option<Vec<u8>>,
) -> CredentialKind {
    if ca is None {
        CredentialKind::CaCertificate
    } else if client_cert is None {
        CredentialKind::ClientCertificate
    } else {
        CredentialKind::ClientKey
    }
}

/// Builds the protocol options: the given identity and endpoint, the fixed
/// TLS port, the mutual-TLS credential material, the fixed keep-alive.
fn configured_options(
    client_id: &str,
    endpoint: &str,
    ca: Vec<u8>,
    client_cert: Vec<u8>,
    client_key: Vec<u8>,
) -> rumqttc::MqttOptions {
    let mut options = options_new(client_id, endpoint, MQTT_TLS_PORT);
    options_set_tls(&mut options, ca, client_cert, client_key);
    options_set_keep_alive(&mut options, KEEP_ALIVE_SECS);
    options
}

/// The blocking client adapter: the send-capable half of a connection.
pub struct AWSIoTClient {
    /// The wrapped library's client handle.
    pub client: rumqttc::Client,
    /// The configuration this handle was built with.
    pub setup: Ghost<BrokerSetup>,
}

impl AWSIoTClient {
    /// Connects with the given settings and credential bytes, as loaded
    /// from the three credential files.  A missing credential — a file
    /// that could not be read — fails the construction atomically, naming
    /// the first unreadable file; otherwise exactly one client handle and
    /// one connection object are produced, configured with the fixed TLS
    /// port, keep-alive interval and request-queue capacity.
    pub fn new(
        settings: AWSIoTSettings,
        ca: Option<Vec<u8>>,
        client_cert: Option<Vec<u8>>,
        client_key: Option<Vec<u8>>,
    ) -> (r: Result<(AWSIoTClient, rumqttc::Connection), ConnectError>)
        ensures
            r is Ok <==> ca is Some && client_cert is Some && client_key is Some,
            r is Ok ==> r->Ok_0.0.setup@ == setup_for(
                settings@.client_id,
                settings@.aws_iot_endpoint,
            ),
            r is Err ==> r->Err_0 == ConnectError::FileRead(
                missing_credential(ca, client_cert, client_key),
            ),
    {
        let ca_bytes = match ca {
            Some(bytes) => bytes,
            None => {
                return Err(ConnectError::FileRead(CredentialKind::CaCertificate));
            },
        };
        let cert_bytes = match client_cert {
            Some(bytes) => bytes,
            None => {
                return Err(ConnectError::FileRead(CredentialKind::ClientCertificate));
            },
        };
        let key_bytes = match client_key {
            Some(bytes) => bytes,
            None => {
                return Err(ConnectError::FileRead(CredentialKind::ClientKey));
            },
        };
        let ghost setup = setup_for(settings@.client_id, settings@.aws_iot_endpoint);
        let options = configured_options(
            settings.client_id().as_str(),
            settings.aws_iot_endpoint().as_str(),
            ca_bytes,
            cert_bytes,
            key_bytes,
        );
        let (client, connection) = client_new(options, REQUEST_QUEUE_CAPACITY);
        Ok((AWSIoTClient { client, setup: Ghost(setup) }, connection))
    }

    /// Sends a subscribe request for the topic at the given
    /// quality-of-service level.  A filter that misuses a wildcard is
    /// rejected before anything is sent; a valid one is handed to the
    /// wrapped library and fails only if the request queue has shut down.
    pub fn subscribe(&mut self, topic_name: String, qos: QualityOfService) -> (r: Result<
        (),
        RequestError,
    >)
        ensures
            !valid_filter(topic_name@) <==> r == Err::<(), RequestError>(
                RequestError::InvalidFilter,
            ),
            valid_filter(topic_name@) ==> r is Ok || r == Err::<(), RequestError>(
                RequestError::SendFailed,
            ),
            final(self).setup == old(self).setup,
    {
        if !check_filter(topic_name.as_str()) {
            return Err(RequestError::InvalidFilter);
        }
        client_subscribe(&self.client, topic_name, qos)
    }

    /// Sends a publish request for the topic at the given
    /// quality-of-service level, never retained.  A topic holding a
    /// wildcard is rejected before anything is sent; a valid one is
    /// handed to the wrapped library and fails only if the request queue
    /// has shut down.
    pub fn publish(&mut self, topic_name: String, qos: QualityOfService, payload: &str) -> (r:
        Result<(), RequestError>)
        ensures
            !valid_topic(topic_name@) <==> r == Err::<(), RequestError>(
                RequestError::InvalidTopic,
            ),
            valid_topic(topic_name@) ==> r is Ok || r == Err::<(), RequestError>(
                RequestError::SendFailed,
            ),
            final(self).setup == old(self).setup,
    {
        if !check_topic(topic_name.as_str()) {
            return Err(RequestError::InvalidTopic);
        }
        client_publish(&self.client, topic_name, qos, false, payload)
    }
}

/// The concurrent client adapter: a handle that enqueues requests onto the
/// channel its event-loop object drains.
pub struct AWSIoTAsyncClient {
    /// The wrapped library's asynchronous client handle.
    pub client: rumqttc::AsyncClient,
    /// The configuration this handle was built with.
    pub setup: Ghost<BrokerSetup>,
}

impl AWSIoTAsyncClient {
    /// Connects with the given identity, endpoint and credential bytes,
    /// with the same contract as the blocking construction; the second
    /// element of the pair is the event-loop object the caller must keep
    /// polling.
    pub fn new(
        client_id: &str,
        aws_iot_endpoint: &str,
        ca: Option<Vec<u8>>,
        client_cert: Option<Vec<u8>>,
        client_key: Option<Vec<u8>>,
    ) -> (r: Result<(AWSIoTAsyncClient, rumqttc::EventLoop), ConnectError>)
        ensures
            r is Ok <==> ca is Some && client_cert is Some && client_key is Some,
            r is Ok ==> r->Ok_0.0.setup@ == setup_for(client_id@, aws_iot_endpoint@),
            r is Err ==> r->Err_0 == ConnectError::FileRead(
                missing_credential(ca, client_cert, client_key),
            ),
    {
        let ca_bytes = match ca {
            Some(bytes) => bytes,
            None => {
                return Err(ConnectError::FileRead(CredentialKind::CaCertificate));
            },
        };
        let cert_bytes = match client_cert {
            Some(bytes) => bytes,
            None => {
                return Err(ConnectError::FileRead(CredentialKind::ClientCertificate));
            },
        };
        let key_bytes = match client_key {
            Some(bytes) => bytes,
            None => {
                return Err(ConnectError::FileRead(CredentialKind::ClientKey));
            },
        };
        let options = configured_options(
            client_id,
            aws_iot_endpoint,
            ca_bytes,
            cert_bytes,
            key_bytes,
        );
        let (client, eventloop) = async_client_new(options, REQUEST_QUEUE_CAPACITY);
        Ok(
            (
                AWSIoTAsyncClient { client, setup: Ghost(setup_for(client_id@, aws_iot_endpoint@)) },
                eventloop,
            ),
        )
    }

    /// Enqueues a subscribe request for the topic at the given
    /// quality-of-service level, without blocking.  A filter that misuses
    /// a wildcard is rejected before anything is sent; a valid one fails
    /// only if the request queue is full or has shut down.
    pub fn subscribe(&mut self, topic_name: String, qos: QualityOfService) -> (r: Result<
        (),
        RequestError,
    >)
        ensures
            !valid_filter(topic_name@) <==> r == Err::<(), RequestError>(
                RequestError::InvalidFilter,
            ),
            valid_filter(topic_name@) ==> r is Ok || r == Err::<(), RequestError>(
                RequestError::SendFailed,
            ),
            final(self).setup == old(self).setup,
    {
        if !check_filter(topic_name.as_str()) {
            return Err(RequestError::InvalidFilter);
        }
        async_client_try_subscribe(&self.client, topic_name, qos)
    }

    /// Enqueues a publish request for the topic at the given
    /// quality-of-service level, never retained, without blocking.  A
    /// topic holding a wildcard is rejected before anything is sent; a
    /// valid one fails only if the request queue is full or has shut
    /// down.
    pub fn publish(&mut self, topic_name: String, qos: QualityOfService, payload: &str) -> (r:
        Result<(), RequestError>)
        ensures
            !valid_topic(topic_name@) <==> r == Err::<(), RequestError>(
                RequestError::InvalidTopic,
            ),
            valid_topic(topic_name@) ==> r is Ok || r == Err::<(), RequestError>(
                RequestError::SendFailed,
            ),
            final(self).setup == old(self).setup,
    {
        if !check_topic(topic_name.as_str()) {
            return Err(RequestError::InvalidTopic);
        }
        async_client_try_publish(&self.client, topic_name, qos, false, payload)
    }
}

} // verus!
