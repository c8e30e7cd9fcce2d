//! The errors a connection reports.

use crate::protocol::serialization::{ErrKind, SerializingErr};
use vstd::prelude::*;

verus! {

#[verifier::external_type_specification]
#[verifier::external_body]
pub struct ExIoError(std::io::Error);

/// Any sort of error that could occur while performing or processing a network request.
#[derive(Debug)]
pub enum NetworkError {
    /// Like when using try_receive and it returns None.
    NoDataReceived,
    ConnectionAbortedLocally,
    ConnectionAbortedRemotely,
    InvalidPacketState,
    InvalidNextState(String),
    InvalidPacketDirection,
    PacketTooLarge,
    ExpectedDifferentPacket(String),
    SerializingErr(SerializingErr),
    IOError(std::io::Error),
}

/// The kind of a [`NetworkError`], without what it carries besides the kind of a serializing
/// error. Contracts name errors by kind.
pub enum NetworkErrKind {
    NoDataReceived,
    ConnectionAbortedLocally,
    ConnectionAbortedRemotely,
    InvalidPacketState,
    InvalidNextState,
    InvalidPacketDirection,
    PacketTooLarge,
    ExpectedDifferentPacket,
    SerializingErr(ErrKind),
    IOError,
}

impl NetworkError {
    pub open spec fn kind(&self) -> NetworkErrKind {
        match self {
            NetworkError::NoDataReceived => NetworkErrKind::NoDataReceived,
            NetworkError::ConnectionAbortedLocally => NetworkErrKind::ConnectionAbortedLocally,
            NetworkError::ConnectionAbortedRemotely => NetworkErrKind::ConnectionAbortedRemotely,
            NetworkError::InvalidPacketState => NetworkErrKind::InvalidPacketState,
            NetworkError::InvalidNextState(_) => NetworkErrKind::InvalidNextState,
            NetworkError::InvalidPacketDirection => NetworkErrKind::InvalidPacketDirection,
            NetworkError::PacketTooLarge => NetworkErrKind::PacketTooLarge,
            NetworkError::ExpectedDifferentPacket(_) => NetworkErrKind::ExpectedDifferentPacket,
            NetworkError::SerializingErr(e) => NetworkErrKind::SerializingErr(e.kind()),
            NetworkError::IOError(_) => NetworkErrKind::IOError,
        }
    }
}

} // verus!
