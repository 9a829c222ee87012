//! The ways in which a call to the remote editor fails.

use vstd::prelude::*;
use crate::value::Model;
use crate::value::Object;

verus! {

/// The mathematical value of an [`RpcError`].
pub enum Failure {
    ConnectFailure,
    Disconnected,
    TimedOut,
    MalformedResponse,
    CorrelationMismatch,
    RemoteError(Model),
    ResponseTooLarge,
}

/// Why a call did not yield a result.
#[derive(Debug, PartialEq)]
pub enum RpcError {
    /// No connection could be made. The host reports this at startup; nothing
    /// in this crate returns it.
    ConnectFailure,
    /// The connection was closed, or writing to it or reading from it failed.
    Disconnected,
    /// Nothing arrived within the read timeout.
    TimedOut,
    /// What arrived is no response envelope, or lacks what was asked for.
    MalformedResponse,
    /// A response envelope arrived that answers another request.
    CorrelationMismatch,
    /// The remote answered with an error; this is its error field.
    RemoteError(Object),
    /// What arrived does not fit the read buffer.
    ResponseTooLarge,
}

impl View for RpcError {
    type V = Failure;

    open spec fn view(&self) -> Failure {
        match self {
            RpcError::ConnectFailure => Failure::ConnectFailure,
            RpcError::Disconnected => Failure::Disconnected,
            RpcError::TimedOut => Failure::TimedOut,
            RpcError::MalformedResponse => Failure::MalformedResponse,
            RpcError::CorrelationMismatch => Failure::CorrelationMismatch,
            RpcError::RemoteError(details) => Failure::RemoteError(details@),
            RpcError::ResponseTooLarge => Failure::ResponseTooLarge,
        }
    }
}

impl Failure {
    /// Whether the failure may pass by itself, so that the same call is worth
    /// making again: a lost or silent connection and a reply that cannot be
    /// read are of this kind; a refusal by the remote, a reply to another
    /// request and a reply that is too large are not.
    pub open spec fn is_transient(self) -> bool {
        self is Disconnected || self is TimedOut || self is MalformedResponse
    }
}

impl RpcError {
    /// Whether the failure ends the relay by itself: only the failure to
    /// connect does. Any other failure ends it only when it is transient and
    /// has used up every attempt.
    pub fn is_fatal(&self) -> (r: bool)
        ensures
            r == (self@ is ConnectFailure),
    {
        match self {
            RpcError::ConnectFailure => true,
            _ => false,
        }
    }

    /// Whether the failure is transient: see [`Failure::is_transient`].
    pub fn is_retryable(&self) -> (r: bool)
        ensures
            r == self@.is_transient(),
    {
        match self {
            RpcError::Disconnected | RpcError::TimedOut | RpcError::MalformedResponse => true,
            _ => false,
        }
    }
}

} // verus!
