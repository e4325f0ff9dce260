//! A client of the snap daemon, which answers JSON over HTTP on a Unix socket.
//!
//! `api` describes the calls and reads their answers, `client` turns a call into the request
//! that is sent, and `connection` holds the state of one connection to the socket and the
//! rules by which a pool of them is reused.
use vstd::prelude::*;

pub mod api;
pub mod client;
pub mod connection;

verus! {

/// The error a client call reports when the daemon could not be reached or answered badly.
#[derive(Debug, Clone, Copy, PartialEq, Eq)]
pub struct SnapdClientError;

} // verus!
