use aws_iot_device_sdk::settings::AWSIoTSettings;

#[test]
fn settings_keep_all_five_parameters() {
    let settings = AWSIoTSettings::new(
        "device-1".to_string(),
        "certs/root-ca.pem".to_string(),
        "certs/device.pem.crt".to_string(),
        "certs/device.private.key".to_string(),
        "endpoint.example.com".to_string(),
    );
    assert_eq!(settings.client_id().as_str(), "device-1");
    assert_eq!(settings.ca_path().as_str(), "certs/root-ca.pem");
    assert_eq!(settings.client_cert_path().as_str(), "certs/device.pem.crt");
    assert_eq!(settings.client_key_path().as_str(), "certs/device.private.key");
    assert_eq!(settings.aws_iot_endpoint().as_str(), "endpoint.example.com");
}

#[test]
fn settings_accept_empty_strings() {
    let settings = AWSIoTSettings::new(
        String::new(),
        String::new(),
        String::new(),
        String::new(),
        String::new(),
    );
    assert_eq!(settings.client_id().as_str(), "");
    assert_eq!(settings.aws_iot_endpoint().as_str(), "");
}
