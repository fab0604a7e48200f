//! The control messages exchanged over the control channel, and the error
//! kinds the protocol can report.

use vstd::prelude::*;

verus! {

/// Every way a session, a handshake or a decode can fail. `Error` frames on
/// the wire carry one of these as a one-byte code.
#[derive(Clone, Copy, Debug, PartialEq, Eq, Structural)]
pub enum TunnelError {
    /// A frame body that does not parse as any message.
    MalformedMessage,
    /// A frame whose tag byte is not one this protocol version knows.
    UnknownMessageType,
    /// A message that is valid in itself but not in the current state.
    ProtocolViolation,
    /// One side has a secret configured and the other has none.
    AuthenticationMismatch,
    /// Both sides have a secret, and the client's proof did not verify.
    AuthenticationFailed,
    /// An anonymous port request found every port in the range leased.
    NoPortsAvailable,
    /// A requested port lies outside the server's configured range.
    PortOutOfRange,
    /// A requested port is currently leased to another session.
    PortInUse,
    /// The peer stopped answering within the liveness window.
    PeerUnreachable,
}

/// Spec-level model of a control message: the byte payload as a sequence.
pub enum MsgModel {
    Hello { requested_port: u16 },
    Challenge { nonce: u128 },
    Authenticate { proof: Seq<u8> },
    HelloAck { leased_port: u16 },
    NewConnection { id: u128 },
    AcceptConnection { id: u128 },
    Heartbeat,
    Error { reason: TunnelError },
}

/// One frame of the control protocol. Exactly one of these is expected per
/// handshake step; after the handshake, `NewConnection`, `AcceptConnection`
/// and `Heartbeat` interleave freely.
#[derive(Clone, Debug, PartialEq, Eq)]
pub enum ControlMessage {
    /// Client opens the handshake and asks for a port (0 = any free port).
    Hello { requested_port: u16 },
    /// Server demands authentication, with a fresh random nonce.
    Challenge { nonce: u128 },
    /// Client answers a challenge with a keyed proof over the nonce.
    Authenticate { proof: Vec<u8> },
    /// Server confirms the handshake and names the leased port.
    HelloAck { leased_port: u16 },
    /// Server announces an accepted public connection by its fresh id.
    NewConnection { id: u128 },
    /// Client pairs a fresh data connection with an announced id.
    AcceptConnection { id: u128 },
    /// Periodic liveness probe; either side may ignore it.
    Heartbeat,
    /// Fatal failure, closing the connection that it is sent on.
    Error { reason: TunnelError },
}

impl View for ControlMessage {
    type V = MsgModel;

    open spec fn view(&self) -> MsgModel {
        match self {
            ControlMessage::Hello { requested_port } => (MsgModel::Hello {
                requested_port: *requested_port,
            }),
            ControlMessage::Challenge { nonce } => (MsgModel::Challenge { nonce: *nonce }),
            ControlMessage::Authenticate { proof } => (MsgModel::Authenticate { proof: proof@ }),
            ControlMessage::HelloAck { leased_port } => (MsgModel::HelloAck {
                leased_port: *leased_port,
            }),
            ControlMessage::NewConnection { id } => (MsgModel::NewConnection { id: *id }),
            ControlMessage::AcceptConnection { id } => (MsgModel::AcceptConnection { id: *id }),
            ControlMessage::Heartbeat => MsgModel::Heartbeat,
            ControlMessage::Error { reason } => (MsgModel::Error { reason: *reason }),
        }
    }
}

} // verus!
