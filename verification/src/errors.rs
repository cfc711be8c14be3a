//! Error kinds surfaced by the client's public operations.

use vstd::prelude::*;

verus! {

/// Failure modes of client operations.
///
/// Application-initiated calls surface these directly; background cycles
/// swallow them and retry on the next interval.
#[derive(Clone, Copy, Debug, PartialEq, Eq, Structural)]
pub enum ClientError {
    /// No reachable endpoint, or the transport failed.
    ConnectionError,
    /// Login or token refresh failed.
    AuthError,
    /// Malformed or unexpected response, or a non-success status code.
    ProtocolError,
    /// The requested configuration key is absent at the server.
    NotFound,
    /// Weighted selection found no healthy, enabled, positive-weight instance.
    NoAvailableInstance,
    /// A request exceeded its fixed timeout.
    Timeout,
}

impl ClientError {
    /// A short human-readable name for the error kind.
    pub fn describe(&self) -> (r: &'static str)
        ensures
            r@ == self.describe_spec(),
    {
        match self {
            ClientError::ConnectionError => "connection error",
            ClientError::AuthError => "auth error",
            ClientError::ProtocolError => "protocol error",
            ClientError::NotFound => "not found",
            ClientError::NoAvailableInstance => "no available instance",
            ClientError::Timeout => "timeout",
        }
    }

    /// The name that `describe` returns for each kind.
    pub open spec fn describe_spec(&self) -> Seq<char> {
        match self {
            ClientError::ConnectionError => "connection error"@,
            ClientError::AuthError => "auth error"@,
            ClientError::ProtocolError => "protocol error"@,
            ClientError::NotFound => "not found"@,
            ClientError::NoAvailableInstance => "no available instance"@,
            ClientError::Timeout => "timeout"@,
        }
    }
}

} // verus!
