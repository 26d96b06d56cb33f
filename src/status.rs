//! Status codes reported by the engine's callbacks.
use vstd::prelude::*;

verus! {

/// The engine's CONNACK code for an accepted connection.
pub const CONNACK_ACCEPTED: i32 = 0;

/// The status of a connection attempt, as the broker answered it.
/// Its meaning depends on the protocol version that the client uses.
#[derive(Debug, Clone, Copy, PartialEq, Eq, Structural)]
pub struct ConnectionStatus(pub i32);

impl ConnectionStatus {
    /// Whether the broker accepted the connection.
    pub open spec fn accepted(&self) -> bool {
        self.0 == CONNACK_ACCEPTED
    }

    /// Returns true if the connection attempt was successful.
    pub fn is_successful(&self) -> (r: bool)
        ensures
            r == self.accepted(),
    {
        self.0 == CONNACK_ACCEPTED
    }
}

/// The reason that the engine gives for a disconnection.
#[derive(Debug, Clone, Copy, PartialEq, Eq, Structural)]
pub struct ReasonCode(pub i32);

impl ReasonCode {
    /// Returns true if the reason represents an unexpected disconnect.
    pub fn is_unexpected_disconnect(&self) -> (r: bool)
        ensures
            r == (self.0 != 0),
    {
        self.0 != 0
    }
}

/// The version of the linked engine library.
#[derive(Debug, Clone, Copy, PartialEq, Eq, Structural)]
pub struct LibraryVersion {
    /// The major version of the library
    pub major: i32,
    /// The minor version of the library
    pub minor: i32,
    /// The revision of the library
    pub revision: i32,
    /// A unique number based on the major, minor and revision values
    pub version: i32,
}

} // verus!
