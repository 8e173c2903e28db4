//! Connection parameters for a broker session.

use vstd::prelude::*;

verus! {

/// The mathematical content of [`AWSIoTSettings`]: each parameter as a
/// sequence of characters.
pub struct SettingsView {
    pub client_id: Seq<char>,
    pub ca_path: Seq<char>,
    pub client_cert_path: Seq<char>,
    pub client_key_path: Seq<char>,
    pub aws_iot_endpoint: Seq<char>,
}

/// An immutable bundle of connection parameters: a client identity, the
/// file-system paths of the CA certificate, the client certificate and the
/// client key, and the broker endpoint host name.
///
/// No validation happens at construction: a path that cannot be read is
/// only detected when the credential files are loaded for a connect call.
pub struct AWSIoTSettings {
    client_id: String,
    ca_path: String,
    client_cert_path: String,
    client_key_path: String,
    aws_iot_endpoint: String,
}

impl View for AWSIoTSettings {
    type V = SettingsView;

    closed spec fn view(&self) -> SettingsView {
        SettingsView {
            client_id: self.client_id@,
            ca_path: self.ca_path@,
            client_cert_path: self.client_cert_path@,
            client_key_path: self.client_key_path@,
            aws_iot_endpoint: self.aws_iot_endpoint@,
        }
    }
}

impl AWSIoTSettings {
    /// Bundles the five parameters, unchanged and unvalidated.
    pub fn new(
        client_id: String,
        ca_path: String,
        client_cert_path: String,
        client_key_path: String,
        aws_iot_endpoint: String,
    ) -> (settings: AWSIoTSettings)
        ensures
            settings@ == (SettingsView {
                client_id: client_id@,
                ca_path: ca_path@,
                client_cert_path: client_cert_path@,
                client_key_path: client_key_path@,
                aws_iot_endpoint: aws_iot_endpoint@,
            }),
    {
        AWSIoTSettings { client_id, ca_path, client_cert_path, client_key_path, aws_iot_endpoint }
    }

    /// The client identity presented to the broker.
    pub fn client_id(&self) -> (r: &String)
        ensures
            r@ == self@.client_id,
    {
        &self.client_id
    }

    /// The path of the CA certificate file.
    pub fn ca_path(&self) -> (r: &String)
        ensures
            r@ == self@.ca_path,
    {
        &self.ca_path
    }

    /// The path of the client certificate file.
    pub fn client_cert_path(&self) -> (r: &String)
        ensures
            r@ == self@.client_cert_path,
    {
        &self.client_cert_path
    }

    /// The path of the client private-key file.
    pub fn client_key_path(&self) -> (r: &String)
        ensures
            r@ == self@.client_key_path,
    {
        &self.client_key_path
    }

    /// The broker endpoint host name.
    pub fn aws_iot_endpoint(&self) -> (r: &String)
        ensures
            r@ == self@.aws_iot_endpoint,
    {
        &self.aws_iot_endpoint
    }
}

} // verus!
