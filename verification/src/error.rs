//! The relay's failures and how far each of them reaches.

use vstd::prelude::*;
use vstd::string::*;

verus! {

/// Everything that can go wrong in the relay.
#[derive(Debug, Clone, Copy, PartialEq, Eq, Structural)]
pub enum RelayError {
    /// The listening address could not be bound.
    Bind,
    /// A peer closed its connection before it sent its name.
    PeerDisconnectedImmediately,
    /// A line did not decrypt: wrong passphrase or corrupt ciphertext.
    DecryptionFailure,
    /// A socket read or write failed.
    SocketIo,
    /// An event or a line was sent to a task that had already ended.
    ChannelClosed,
}

/// How far a failure reaches.
#[derive(Debug, Clone, Copy, PartialEq, Eq, Structural)]
pub enum Reach {
    /// The relay does not start.
    Startup,
    /// The task that met the failure ends; every other task goes on.
    Connection,
    /// Nothing ends: the failure is passed over.
    Nowhere,
}

/// The relay's propagation policy: only a failed bind is fatal, a closed
/// channel is passed over, and everything else ends one connection's task.
pub open spec fn reach_of(error: RelayError) -> Reach {
    match error {
        RelayError::Bind => Reach::Startup,
        RelayError::ChannelClosed => Reach::Nowhere,
        _ => Reach::Connection,
    }
}

/// What the relay reports for a failure.
pub open spec fn description_of(error: RelayError) -> Seq<char> {
    match error {
        RelayError::Bind => "could not bind the listening address"@,
        RelayError::PeerDisconnectedImmediately => "peer disconnected immediately"@,
        RelayError::DecryptionFailure => "line did not decrypt"@,
        RelayError::SocketIo => "socket read or write failed"@,
        RelayError::ChannelClosed => "channel closed"@,
    }
}

impl RelayError {
    /// How far this failure reaches.
    pub fn reach(&self) -> (reach: Reach)
        ensures
            reach == reach_of(*self),
    {
        match self {
            RelayError::Bind => Reach::Startup,
            RelayError::ChannelClosed => Reach::Nowhere,
            _ => Reach::Connection,
        }
    }

    /// The text reported for this failure.
    pub fn describe(&self) -> (text: String)
        ensures
            text@ == description_of(*self),
    {
        match self {
            RelayError::Bind => String::from_str("could not bind the listening address"),
            RelayError::PeerDisconnectedImmediately => String::from_str(
                "peer disconnected immediately",
            ),
            RelayError::DecryptionFailure => String::from_str("line did not decrypt"),
            RelayError::SocketIo => String::from_str("socket read or write failed"),
            RelayError::ChannelClosed => String::from_str("channel closed"),
        }
    }
}

} // verus!
