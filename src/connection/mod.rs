//! One HTTP/1 connection to the daemon's socket, and the rules by which the pool reuses it.
//!
//! Opening a connection, sending on it and waiting for its driving task are asynchronous and
//! happen outside this module; here stand the state of a connection and every decision taken
//! on it.
pub mod error;

use vstd::prelude::*;

pub use error::{ConnectionReuseError, SnapdConnectionError, SnapdRequestError};

verus! {

#[verifier::external_type_specification]
#[verifier::external_body]
#[verifier::reject_recursive_types(B)]
pub struct ExSendRequest<B>(hyper::client::conn::http1::SendRequest<B>);

#[verifier::external_type_specification]
#[verifier::external_body]
#[verifier::reject_recursive_types(T)]
pub struct ExJoinHandle<T>(tokio::task::JoinHandle<T>);

#[verifier::external_type_specification]
#[verifier::external_body]
pub struct ExJoinError(tokio::task::JoinError);

#[verifier::external_type_specification]
#[verifier::external_body]
pub struct ExHyperError(hyper::Error);

#[verifier::external_type_specification]
#[verifier::external_body]
#[verifier::reject_recursive_types(D)]
pub struct ExEmpty<D>(http_body_util::Empty<D>);

#[verifier::external_type_specification]
#[verifier::external_body]
pub struct ExBytes(hyper::body::Bytes);

/// Relies on hyper's `SendRequest::is_closed`: whether the connection side has closed, which
/// the peer may do at any time, so nothing is promised of the answer.
pub assume_specification<B>[ hyper::client::conn::http1::SendRequest::<B>::is_closed ](
    s: &hyper::client::conn::http1::SendRequest<B>,
) -> bool;

/// Relies on tokio's `JoinHandle::is_finished`: whether the task has ended, which it may do at
/// any time, so nothing is promised of the answer.
pub assume_specification<T>[ tokio::task::JoinHandle::<T>::is_finished ](
    h: &tokio::task::JoinHandle<T>,
) -> bool;

/// The path of the daemon's socket.
pub const SNAPD_SOCKET_PATH: &'static str = "/run/snapd.socket";

/// The body of every request: requests to the daemon carry none.
pub type SnapdRequestBody = http_body_util::Empty<hyper::body::Bytes>;

/// What the task that drives a connection ends with.
pub type DriverResult = Result<(), hyper::Error>;

/// A connection to the daemon: open, with the handle that sends requests and the handle of the
/// task that drives the socket, or closed. A closed connection is never opened again.
#[derive(Debug)]
pub enum SnapdConnection {
    Active {
        request_sender: hyper::client::conn::http1::SendRequest<SnapdRequestBody>,
        connection_join_handle: tokio::task::JoinHandle<DriverResult>,
    },
    Closed,
}

/// What the pool does with a connection that came back to it.
pub enum Recycle {
    /// Lend it out again.
    Keep,
    /// Drop it and open a new one.
    Reject,
    /// Close this connection, taken out of the slot, then open a new one.
    CloseThenReject(SnapdConnection),
}

/// The decision on a connection that came back, without the connection it may carry.
#[derive(PartialEq, Eq, Structural)]
pub enum RecycleVerdict {
    Keep,
    Reject,
    CloseThenReject,
}

impl Recycle {
    pub open spec fn verdict(&self) -> RecycleVerdict {
        match self {
            Recycle::Keep => RecycleVerdict::Keep,
            Recycle::Reject => RecycleVerdict::Reject,
            Recycle::CloseThenReject(_) => RecycleVerdict::CloseThenReject,
        }
    }
}

/// The decision on a connection in state `conn` that came back, `ended` telling whether it had
/// been found closed by its peer or its driving task had ended.
pub open spec fn recycle_verdict(conn: SnapdConnection, ended: bool) -> RecycleVerdict {
    match conn {
        SnapdConnection::Closed => RecycleVerdict::Reject,
        SnapdConnection::Active { .. } => if ended {
            RecycleVerdict::CloseThenReject
        } else {
            RecycleVerdict::Keep
        },
    }
}

/// What waiting for a connection's driving task gave: its own result, or why it could not be
/// had.
pub type JoinOutcome = Result<DriverResult, tokio::task::JoinError>;

impl SnapdConnection {
    /// An open connection made of the handles that the HTTP handshake gave.
    pub fn new(
        request_sender: hyper::client::conn::http1::SendRequest<SnapdRequestBody>,
        connection_join_handle: tokio::task::JoinHandle<DriverResult>,
    ) -> (r: Self)
        ensures
            r == (SnapdConnection::Active { request_sender, connection_join_handle }),
    {
        SnapdConnection::Active { request_sender, connection_join_handle }
    }

    /// Whether the handle that sends requests reports the connection closed.
    pub fn is_closed(&self) -> (r: bool)
        ensures
            *self is Closed ==> !r,
    {
        match self {
            SnapdConnection::Active { request_sender, .. } => request_sender.is_closed(),
            SnapdConnection::Closed => false,
        }
    }

    /// Whether the task that drives the connection has ended, which it only does on an error
    /// while the sending handle lives.
    pub fn is_finished(&self) -> (r: bool)
        ensures
            *self is Closed ==> !r,
    {
        match self {
            SnapdConnection::Active { connection_join_handle, .. } => connection_join_handle.is_finished(),
            SnapdConnection::Closed => false,
        }
    }

    /// Whether the connection has ended, closed by its peer or by an error: what
    /// `ended_of` makes of the answers of `is_closed` and `is_finished`.
    pub fn connection_ended(&self) -> (r: bool)
        ensures
            *self is Closed ==> !r,
    {
        let closed = self.is_closed();
        let finished = self.is_finished();
        ended_of(closed, finished)
    }

    /// Decides on a connection that came back to the pool, `ended` telling whether it was found
    /// ended. An ended connection is taken out of its slot, which is left closed, so that it
    /// can be closed and its driving task waited for.
    pub fn recycle_with(&mut self, ended: bool) -> (r: Recycle)
        ensures
            r.verdict() == recycle_verdict(*old(self), ended),
            r matches Recycle::CloseThenReject(taken) ==> taken == *old(self) && *final(self) is Closed,
            !(r is CloseThenReject) ==> *final(self) == *old(self),
    {
        match self {
            SnapdConnection::Closed => Recycle::Reject,
            SnapdConnection::Active { .. } => {
                if ended {
                    let mut taken = SnapdConnection::Closed;
                    std::mem::swap(self, &mut taken);
                    Recycle::CloseThenReject(taken)
                } else {
                    Recycle::Keep
                }
            },
        }
    }

    /// Decides on a connection that came back to the pool, by asking it whether it has ended.
    pub fn recycle(&mut self) -> (r: Recycle)
        ensures
            *old(self) is Closed ==> r is Reject && *final(self) == *old(self),
            *old(self) is Active ==> (r is Keep || r is CloseThenReject),
            r is Keep ==> *old(self) is Active && *final(self) == *old(self),
            r matches Recycle::CloseThenReject(taken) ==> taken == *old(self) && *old(
                self,
            ) is Active && *final(self) is Closed,
            !(r is CloseThenReject) ==> *final(self) == *old(self),
    {
        let ended = self.connection_ended();
        self.recycle_with(ended)
    }

    /// The first half of closing: drops the sending handle, which lets the driving task end,
    /// and hands back that task's handle to be waited for. A closed connection has none.
    pub fn begin_close(self) -> (r: Option<tokio::task::JoinHandle<DriverResult>>)
        ensures
            self is Closed ==> r is None,
            self matches SnapdConnection::Active { connection_join_handle, .. } ==> r == Some(
                connection_join_handle,
            ),
    {
        match self {
            SnapdConnection::Closed => None,
            // The sending handle is left behind and dropped on return, before the caller can
            // wait on the task: without that the task would wait for requests forever.
            SnapdConnection::Active { connection_join_handle, .. } => Some(connection_join_handle),
        }
    }

    /// The handle on which a request can be sent; a closed connection has none.
    pub fn request_sender(&mut self) -> (r: Result<
        &mut hyper::client::conn::http1::SendRequest<SnapdRequestBody>,
        SnapdRequestError,
    >)
        ensures
            *old(self) is Closed <==> r matches Err(SnapdRequestError::ClosedConnectionError),
            *old(self) is Closed ==> *final(self) == *old(self),
            r matches Ok(s) ==> *old(self) matches SnapdConnection::Active {
                request_sender,
                connection_join_handle,
            } && request_sender == *s && *final(self) == (SnapdConnection::Active {
                request_sender: *final(s),
                connection_join_handle,
            }),
    {
        match self {
            SnapdConnection::Active { request_sender, .. } => Ok(request_sender),
            SnapdConnection::Closed => Err(SnapdRequestError::ClosedConnectionError),
        }
    }
}

/// Whether a connection has ended, given whether its sending handle reports it closed and
/// whether its driving task has finished: either one ends it.
pub fn ended_of(closed: bool, finished: bool) -> (r: bool)
    ensures
        r == (closed || finished),
{
    closed || finished
}

/// The second half of closing: what waiting for the driving task gave, or `None` where the
/// connection was already closed and there was nothing to wait for.
pub fn close_outcome(joined: Option<JoinOutcome>) -> (r: Result<(), ConnectionReuseError>)
    ensures
        joined is None ==> r is Ok,
        joined matches Some(Ok(Ok(()))) ==> r is Ok,
        joined matches Some(Ok(Err(e))) ==> r matches Err(ConnectionReuseError::RuntimeError(f))
            && f == e,
        joined matches Some(Err(e)) ==> r matches Err(ConnectionReuseError::ConnectionPanicked(f))
            && f == e,
{
    match joined {
        None => Ok(()),
        Some(Ok(Ok(()))) => Ok(()),
        Some(Ok(Err(e))) => Err(ConnectionReuseError::RuntimeError(e)),
        Some(Err(e)) => Err(ConnectionReuseError::ConnectionPanicked(e)),
    }
}

/// A connection that has ended, or is closed, is never lent out again: the pool keeps only an
/// open connection whose sending handle is not closed and whose driving task has not finished,
/// and a connection that was found ended is taken out of its slot, so the next caller of that
/// slot gets a new one.
pub proof fn lemma_no_dead_hand_off(conn: SnapdConnection, closed: bool, finished: bool)
    ensures
        recycle_verdict(conn, closed || finished) == RecycleVerdict::Keep <==> (conn is Active
            && !closed && !finished),
        (conn is Active && (closed || finished)) ==> recycle_verdict(conn, closed || finished)
            == RecycleVerdict::CloseThenReject,
{
}

} // verus!
