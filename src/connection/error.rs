//! What can go wrong on a connection to the daemon.
use vstd::prelude::*;

verus! {

#[verifier::external_type_specification]
#[verifier::external_body]
pub struct ExIoError(std::io::Error);

/// A request that could not be sent or answered.
#[derive(Debug)]
pub enum SnapdRequestError {
    /// The HTTP engine reported an error while sending or receiving.
    GenericHyperError(hyper::Error),
    /// The connection was already closed.
    ClosedConnectionError,
}

/// A connection that could not be opened or reused.
#[derive(Debug)]
pub enum SnapdConnectionError {
    /// The daemon's socket could not be connected to.
    ConnectError(std::io::Error),
    /// Connecting to the socket or the HTTP handshake failed.
    HandshakeError(hyper::Error),
    /// A connection that came back to the pool was found unusable.
    ConnectionReuseError(ConnectionReuseError),
}

/// Why a connection that came back to the pool cannot be lent out again.
#[derive(Debug)]
pub enum ConnectionReuseError {
    /// The task that drove the connection panicked or was cancelled.
    ConnectionPanicked(tokio::task::JoinError),
    /// The task that drove the connection ended with an error.
    RuntimeError(hyper::Error),
    /// The connection had ended, and is replaced.
    NaturallyClosed,
}

impl From<ConnectionReuseError> for SnapdConnectionError {
    fn from(err: ConnectionReuseError) -> (r: SnapdConnectionError) {
        SnapdConnectionError::ConnectionReuseError(err)
    }
}

impl vstd::std_specs::convert::FromSpecImpl<ConnectionReuseError> for SnapdConnectionError {
    open spec fn obeys_from_spec() -> bool {
        true
    }

    open spec fn from_spec(err: ConnectionReuseError) -> SnapdConnectionError {
        SnapdConnectionError::ConnectionReuseError(err)
    }
}

} // verus!
