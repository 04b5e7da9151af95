//! Error values of the query protocol.

use vstd::prelude::*;

verus! {

/// Why a byte sequence is not a protocol message.
#[derive(Clone, Copy, Debug, PartialEq, Eq, Structural, Hash)]
pub enum Malformed {
    /// The buffer ends before the message does.
    Truncated,
    /// The first byte is not the protocol version this library speaks.
    UnknownVersion,
    /// The battle mode tag names no known mode.
    UnknownBattleMode,
    /// A field holds a value outside the range its meaning allows.
    FieldOutOfRange,
}

/// Failure to read bytes as a protocol message.
#[derive(Clone, Copy, Debug, PartialEq, Eq, Structural, Hash)]
pub enum DecodeError {
    /// The bytes are not a message of this protocol, for the reason given.
    MalformedMessage(Malformed),
}

/// A failure reported by the datagram transport, by the kind of error the
/// operating system gave.
#[derive(Clone, Copy, Debug, PartialEq, Eq, Structural, Hash)]
pub enum TransportFault {
    /// An address was not one the socket can use.
    InvalidInput,
    /// The address asked for does not exist on this machine.
    AddrNotAvailable,
    /// The call was interrupted before it did anything.
    Interrupted,
    /// The socket had nothing to give or no room to take.
    WouldBlock,
    /// The call did not finish in the time it was given.
    TimedOut,
    /// An earlier datagram bounced: nobody listens at its peer.
    ConnectionRefused,
    /// An earlier datagram bounced: its peer went away.
    ConnectionReset,
    /// The socket is not bound any more.
    NotConnected,
    /// The socket was shut down.
    BrokenPipe,
    /// The socket was closed under the call.
    ConnectionAborted,
    /// Any other error of the operating system.
    Other,
}

impl TransportFault {
    /// Whether the transport itself is unusable: the socket is closed, or the
    /// error is one nothing is known about. Every other fault costs the
    /// datagram at hand and no more.
    pub open spec fn fatal(self) -> bool {
        self is NotConnected || self is BrokenPipe || self is ConnectionAborted || self is Other
    }

    /// Tells a fault that ends the service from one that costs a single datagram.
    pub fn is_fatal(&self) -> (fatal: bool)
        ensures
            fatal == self.fatal(),
    {
        match self {
            TransportFault::NotConnected => true,
            TransportFault::BrokenPipe => true,
            TransportFault::ConnectionAborted => true,
            TransportFault::Other => true,
            _ => false,
        }
    }
}

/// Failure of one status query, as seen by the requester's caller.
#[derive(Clone, Copy, Debug, PartialEq, Eq, Structural, Hash)]
pub enum QueryError {
    /// A reply arrived but is not a response of this protocol.
    MalformedMessage(Malformed),
    /// No reply arrived within the time allowed.
    Timeout,
    /// The transport is unusable.
    TransportFatal(TransportFault),
}

} // verus!
