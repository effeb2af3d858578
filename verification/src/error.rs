//! Why a driver refuses an operation.

use vstd::prelude::*;

verus! {

/// The ways in which a driver operation is refused. None of them is a
/// network failure: those belong to whoever owns the connection.
#[derive(Clone, Copy, Debug, PartialEq, Eq, Structural)]
pub enum DriverError {
    /// The client code names neither kind of connection.
    UnknownClient,
    /// The operation is not offered on this kind of connection.
    WrongMode,
    /// The operation was called when the protocol was not ready for it.
    OutOfTurn,
    /// The peer sent a message that is illegal in the current state.
    ProtocolViolation,
    /// Bytes that had to decode did not.
    Undecodable,
    /// The text is not an address.
    BadAddress,
    /// The transaction is too large to be announced.
    Oversized,
    /// The position names no block.
    NoBlock,
}

impl DriverError {
    /// The description of each error.
    pub open spec fn spec_message(self) -> Seq<char> {
        match self {
            DriverError::UnknownClient => "unknown client type"@,
            DriverError::WrongMode => "operation not offered on this kind of connection"@,
            DriverError::OutOfTurn => "operation called out of turn"@,
            DriverError::ProtocolViolation => "unexpected message"@,
            DriverError::Undecodable => "decoding failed"@,
            DriverError::BadAddress => "not an address"@,
            DriverError::Oversized => "transaction too large"@,
            DriverError::NoBlock => "the origin holds no block"@,
        }
    }

    /// A short description of the error.
    pub fn message(&self) -> (text: &'static str)
        ensures
            text@ == self.spec_message(),
    {
        match self {
            DriverError::UnknownClient => "unknown client type",
            DriverError::WrongMode => "operation not offered on this kind of connection",
            DriverError::OutOfTurn => "operation called out of turn",
            DriverError::ProtocolViolation => "unexpected message",
            DriverError::Undecodable => "decoding failed",
            DriverError::BadAddress => "not an address",
            DriverError::Oversized => "transaction too large",
            DriverError::NoBlock => "the origin holds no block",
        }
    }
}

} // verus!
