use aws_iot_device_sdk::client::{
    AWSIoTAsyncClient, AWSIoTClient, KEEP_ALIVE_SECS, MQTT_TLS_PORT, REQUEST_QUEUE_CAPACITY,
};
use aws_iot_device_sdk::errors::{ConnectError, CredentialKind, RequestError};
use aws_iot_device_sdk::qos::QualityOfService;
use aws_iot_device_sdk::settings::AWSIoTSettings;

fn demo_settings() -> AWSIoTSettings {
    AWSIoTSettings::new(
        "device-1".to_string(),
        "certs/root-ca.pem".to_string(),
        "certs/device.pem.crt".to_string(),
        "certs/device.private.key".to_string(),
        "endpoint.example.com".to_string(),
    )
}

fn demo_bytes() -> Option<Vec<u8>> {
    Some(b"pem bytes".to_vec())
}

#[test]
fn fixed_configuration_constants() {
    assert_eq!(MQTT_TLS_PORT, 8883);
    assert_eq!(KEEP_ALIVE_SECS, 10);
    assert_eq!(REQUEST_QUEUE_CAPACITY, 10);
}

#[test]
fn connect_fails_without_ca_bytes() {
    let outcome = AWSIoTClient::new(demo_settings(), None, demo_bytes(), demo_bytes());
    match outcome {
        Err(error) => assert_eq!(error, ConnectError::FileRead(CredentialKind::CaCertificate)),
        Ok(_) => panic!("connect must fail when the CA file was unreadable"),
    }
}

#[test]
fn connect_fails_without_client_cert_bytes() {
    let outcome = AWSIoTClient::new(demo_settings(), demo_bytes(), None, demo_bytes());
    match outcome {
        Err(error) => {
            assert_eq!(error, ConnectError::FileRead(CredentialKind::ClientCertificate))
        }
        Ok(_) => panic!("connect must fail when the client certificate was unreadable"),
    }
}

#[test]
fn connect_fails_without_client_key_bytes() {
    let outcome = AWSIoTClient::new(demo_settings(), demo_bytes(), demo_bytes(), None);
    match outcome {
        Err(error) => assert_eq!(error, ConnectError::FileRead(CredentialKind::ClientKey)),
        Ok(_) => panic!("connect must fail when the client key was unreadable"),
    }
}

#[test]
fn connect_names_the_first_missing_credential() {
    let outcome = AWSIoTClient::new(demo_settings(), None, None, None);
    match outcome {
        Err(error) => assert_eq!(error, ConnectError::FileRead(CredentialKind::CaCertificate)),
        Ok(_) => panic!("connect must fail when every credential was unreadable"),
    }
}

#[test]
fn connect_yields_one_handle_and_one_connection() {
    let outcome = AWSIoTClient::new(demo_settings(), demo_bytes(), demo_bytes(), demo_bytes());
    assert!(outcome.is_ok());
}

#[test]
fn subscribe_rejects_an_invalid_filter() {
    let (mut client, _connection) =
        AWSIoTClient::new(demo_settings(), demo_bytes(), demo_bytes(), demo_bytes()).unwrap();
    let outcome = client.subscribe("devices/#/shadow".to_string(), QualityOfService::AtLeastOnce);
    assert_eq!(outcome, Err(RequestError::InvalidFilter));
}

#[test]
fn subscribe_accepts_a_valid_filter() {
    let (mut client, _connection) =
        AWSIoTClient::new(demo_settings(), demo_bytes(), demo_bytes(), demo_bytes()).unwrap();
    let outcome = client.subscribe("devices/+/shadow".to_string(), QualityOfService::AtLeastOnce);
    assert_eq!(outcome, Ok(()));
}

#[test]
fn publish_rejects_a_wildcard_topic() {
    let (mut client, _connection) =
        AWSIoTClient::new(demo_settings(), demo_bytes(), demo_bytes(), demo_bytes()).unwrap();
    let outcome = client.publish(
        "devices/+/shadow".to_string(),
        QualityOfService::AtMostOnce,
        "hello",
    );
    assert_eq!(outcome, Err(RequestError::InvalidTopic));
}

#[test]
fn publish_accepts_a_plain_topic() {
    let (mut client, _connection) =
        AWSIoTClient::new(demo_settings(), demo_bytes(), demo_bytes(), demo_bytes()).unwrap();
    let outcome = client.publish(
        "devices/thing-1/shadow".to_string(),
        QualityOfService::AtMostOnce,
        "hello",
    );
    assert_eq!(outcome, Ok(()));
}

#[test]
fn subscribe_fails_once_the_connection_is_gone() {
    let (mut client, connection) =
        AWSIoTClient::new(demo_settings(), demo_bytes(), demo_bytes(), demo_bytes()).unwrap();
    drop(connection);
    let outcome = client.subscribe("devices/thing-1".to_string(), QualityOfService::AtMostOnce);
    assert_eq!(outcome, Err(RequestError::SendFailed));
}

#[test]
fn async_connect_fails_without_credentials() {
    let outcome =
        AWSIoTAsyncClient::new("device-1", "endpoint.example.com", demo_bytes(), None, None);
    match outcome {
        Err(error) => {
            assert_eq!(error, ConnectError::FileRead(CredentialKind::ClientCertificate))
        }
        Ok(_) => panic!("connect must fail when a credential was unreadable"),
    }
}

#[test]
fn async_connect_yields_one_handle_and_one_event_loop() {
    let outcome = AWSIoTAsyncClient::new(
        "device-1",
        "endpoint.example.com",
        demo_bytes(),
        demo_bytes(),
        demo_bytes(),
    );
    assert!(outcome.is_ok());
}

#[test]
fn async_subscribe_rejects_an_invalid_filter() {
    let (mut client, _eventloop) = AWSIoTAsyncClient::new(
        "device-1",
        "endpoint.example.com",
        demo_bytes(),
        demo_bytes(),
        demo_bytes(),
    )
    .unwrap();
    let outcome = client.subscribe("##".to_string(), QualityOfService::ExactlyOnce);
    assert_eq!(outcome, Err(RequestError::InvalidFilter));
}

#[test]
fn async_publish_and_subscribe_enqueue_requests() {
    let (mut client, _eventloop) = AWSIoTAsyncClient::new(
        "device-1",
        "endpoint.example.com",
        demo_bytes(),
        demo_bytes(),
        demo_bytes(),
    )
    .unwrap();
    assert_eq!(
        client.subscribe("devices/thing-1".to_string(), QualityOfService::AtLeastOnce),
        Ok(())
    );
    assert_eq!(
        client.publish(
            "devices/thing-1/data".to_string(),
            QualityOfService::AtMostOnce,
            "payload",
        ),
        Ok(())
    );
}

#[test]
fn async_requests_fail_once_the_queue_is_full() {
    let (mut client, _eventloop) = AWSIoTAsyncClient::new(
        "device-1",
        "endpoint.example.com",
        demo_bytes(),
        demo_bytes(),
        demo_bytes(),
    )
    .unwrap();
    let mut accepted: usize = 0;
    let mut refused: usize = 0;
    for _ in 0..(REQUEST_QUEUE_CAPACITY + 1) {
        match client.publish("t".to_string(), QualityOfService::AtMostOnce, "x") {
            Ok(()) => accepted += 1,
            Err(RequestError::SendFailed) => refused += 1,
            Err(other) => panic!("unexpected error: {:?}", other),
        }
    }
    assert_eq!(accepted, REQUEST_QUEUE_CAPACITY);
    assert_eq!(refused, 1);
}
