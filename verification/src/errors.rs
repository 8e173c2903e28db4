//! The error taxonomy of the adapter.

use vstd::prelude::*;

verus! {

/// The credential file a failed connect could not read.
#[derive(Clone, Copy, PartialEq, Eq, Structural, Debug)]
pub enum CredentialKind {
    CaCertificate,
    ClientCertificate,
    ClientKey,
}

/// Why a connect failed.  Construction fails atomically: no handle and no
/// connection object exist when this error is returned.  TLS negotiation
/// and transport failures cannot arise at construction — the wrapped
/// library only opens the socket once the connection object is driven, and
/// reports such failures there as failed polls.
#[derive(Clone, Copy, PartialEq, Eq, Structural, Debug)]
pub enum ConnectError {
    /// A credential file could not be read, so no connection was attempted.
    FileRead(CredentialKind),
}

/// Why a subscribe or publish request was not handed to the event loop.
#[derive(Clone, Copy, PartialEq, Eq, Structural, Debug)]
pub enum RequestError {
    /// The publish topic holds a wildcard character.
    InvalidTopic,
    /// The subscribe filter misuses a wildcard, or is empty.
    InvalidFilter,
    /// The request queue refused the request: it has shut down, or — for
    /// the concurrent client — it is full.
    SendFailed,
}

} // verus!
