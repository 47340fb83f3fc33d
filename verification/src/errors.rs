//! Typed errors returned by the caller-facing operations of the engine.

use vstd::prelude::*;

verus! {

/// The authentication method that an `AuthenticationFailed` error names.
///
/// `Unsupported` is returned when no usable credential was supplied at
/// all, before any transport round-trip.
#[derive(Clone, Copy, Debug, PartialEq, Eq, Structural)]
pub enum AuthenticationMethod {
    Password,
    PublicKey,
    Certificate,
    Unsupported,
}

/// How a connection was being established when it failed: directly,
/// through a single proxy hop, or through an ordered proxy chain.
#[derive(Clone, Copy, Debug, PartialEq, Eq, Structural)]
pub enum ConnectionContext {
    Direct,
    Proxy,
    ProxyChain,
}

/// Errors of caller-facing operations (connect, authenticate, open or
/// close a forwarding, shell operations).  Failures inside relay tasks
/// are isolated to those tasks and never surface here.
#[derive(Debug, Clone, PartialEq, Eq)]
pub enum SSHError {
    /// The connection could not be established; carries the dialed
    /// host and port and the structured context (direct, proxy, chain)
    /// rather than concatenated text.
    ConnectionFailed { address: String, port: u16, context: ConnectionContext },
    /// An operation named a session id with no live session.
    NotFoundSession,
    /// A forwarding close or lookup named a key that is not registered.
    NotFoundPortForwarding,
    /// One authentication attempt was refused; names the method tried.
    AuthenticationFailed { method: AuthenticationMethod },
    /// The server's host key is not in the trust store and no policy
    /// allowed proceeding.
    UnknownHostKey { algorithm: String, fingerprint: String },
    /// The certificate blob of a certificate credential is malformed.
    CertificateParseError,
    /// The underlying transport reported a failure.
    TransportError,
    /// A channel operation failed on the transport.
    ChannelError,
}

pub type SSHResult<T> = Result<T, SSHError>;

} // verus!
