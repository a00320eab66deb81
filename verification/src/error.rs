//! Failures that a session reports.

use vstd::prelude::*;

verus! {

/// Why an operation on a session was refused.
#[derive(Debug, Clone, Copy, PartialEq, Eq, Structural)]
pub enum SessionError {
    /// Input or output was attempted after the session was closed.
    ChannelClosed,
    /// The role flag of a handshake was neither 0 nor 1.
    UnknownHandshakeFlag,
    /// The ephemeral private key was already handed to an earlier handshake.
    KeyConsumed,
    /// An initiator handshake was asked for on a session without a header.
    MissingHeader,
    /// A message was to be sent or received before a symmetric key was set.
    NotEstablished,
    /// A handshake outcome arrived that the session was not waiting for.
    UnexpectedOutcome,
    /// The ephemeral key pair could not be generated.
    KeyGeneration,
}

/// The families into which failures of a channel fall. A session itself
/// reports the first two; the other two are for the transport under it.
#[derive(Debug, Clone, Copy, PartialEq, Eq, Structural)]
pub enum ErrorKind {
    /// Input or output after close.
    ChannelClosed,
    /// The channel was not, or not yet, established.
    HandshakeFailure,
    /// The socket failed.
    TransportFailure,
    /// A marker or flag had a value that the protocol does not know.
    ProtocolDesync,
}

impl SessionError {
    /// The family of this failure, for use in contracts.
    pub open spec fn spec_kind(self) -> ErrorKind {
        match self {
            SessionError::ChannelClosed => ErrorKind::ChannelClosed,
            SessionError::NotEstablished => ErrorKind::HandshakeFailure,
            SessionError::UnknownHandshakeFlag => ErrorKind::HandshakeFailure,
            SessionError::KeyConsumed => ErrorKind::HandshakeFailure,
            SessionError::MissingHeader => ErrorKind::HandshakeFailure,
            SessionError::UnexpectedOutcome => ErrorKind::HandshakeFailure,
            SessionError::KeyGeneration => ErrorKind::HandshakeFailure,
        }
    }

    /// The family of this failure: whatever keeps a channel from being
    /// established is a handshake failure, so that it can be told from a
    /// failure of the established channel.
    pub fn kind(&self) -> (k: ErrorKind)
        ensures
            k == self.spec_kind(),
    {
        match self {
            SessionError::ChannelClosed => ErrorKind::ChannelClosed,
            _ => ErrorKind::HandshakeFailure,
        }
    }
}

} // verus!
