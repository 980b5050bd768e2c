//! Error taxonomy of the core: one variant per external failure source,
//! each carrying a diagnostic message from the underlying cause.

use vstd::prelude::*;

verus! {

/// The kind of a core-level failure, without its diagnostic payload.
#[derive(Clone, Copy, Debug, PartialEq, Eq, Structural)]
pub enum ErrorKind {
    /// Key or certificate generation, signing, or encoding failed.
    Crypto,
    /// A TLS handshake failed or a presented certificate is untrusted.
    Tls,
    /// Bind, connect, accept, or mid-session I/O failed.
    Network,
    /// Malformed or out-of-order RPC framing.
    Protocol,
    /// Unparseable address, or a configuration value out of range.
    Config,
}

/// A core-level failure: a kind plus the diagnostic message of the
/// underlying cause.
#[derive(Debug)]
pub struct Error {
    /// Which external failure source produced this error.
    pub kind: ErrorKind,
    /// The diagnostic message of the underlying cause.
    pub message: String,
}

impl Error {
    /// Build a failure of key/certificate generation or signing.
    pub fn crypto(message: String) -> (r: Error)
        ensures
            r.kind == ErrorKind::Crypto,
            r.message == message,
    {
        Error { kind: ErrorKind::Crypto, message }
    }

    /// Build a handshake or certificate-trust failure.
    pub fn tls(message: String) -> (r: Error)
        ensures
            r.kind == ErrorKind::Tls,
            r.message == message,
    {
        Error { kind: ErrorKind::Tls, message }
    }

    /// Build a bind/connect/accept or I/O failure.
    pub fn network(message: String) -> (r: Error)
        ensures
            r.kind == ErrorKind::Network,
            r.message == message,
    {
        Error { kind: ErrorKind::Network, message }
    }

    /// Build a framing or protocol-violation failure.
    pub fn protocol(message: String) -> (r: Error)
        ensures
            r.kind == ErrorKind::Protocol,
            r.message == message,
    {
        Error { kind: ErrorKind::Protocol, message }
    }

    /// Build a configuration failure.
    pub fn config(message: String) -> (r: Error)
        ensures
            r.kind == ErrorKind::Config,
            r.message == message,
    {
        Error { kind: ErrorKind::Config, message }
    }

    /// The kind of this failure.
    pub fn kind(&self) -> (r: ErrorKind)
        ensures
            r == self.kind,
    {
        self.kind
    }

    /// The diagnostic message of the underlying cause.
    pub fn message(&self) -> (r: &String)
        ensures
            r == self.message,
    {
        &self.message
    }
}

} // verus!
