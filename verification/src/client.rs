//! The client side of one control session, as a state machine over received
//! events. The caller opens the control connection, sends the returned
//! frames, and reports what it reads; on `OpenPairing` it opens a fresh
//! data connection to the server, declares the pairing id on it, connects
//! to the local service and relays — a failure there costs only that one
//! pairing, never the session.

use vstd::prelude::*;

use crate::auth::prove;
use crate::auth::spec_proof_of;
use crate::heartbeat::should_send;
use crate::msg::ControlMessage;
use crate::msg::MsgModel;
use crate::msg::TunnelError;

verus! {

/// The client's per-session configuration.
pub struct ClientConfig {
    /// The shared secret, or None when the server runs open.
    pub secret: Option<Vec<u8>>,
    /// The port asked of the server; 0 asks for any free one.
    pub requested_port: u16,
    /// How often a heartbeat is owed on the control channel.
    pub heartbeat_interval_ms: u64,
}

impl ClientConfig {
    /// The configured secret's bytes.
    pub open spec fn secret_bytes(self) -> Seq<u8>
        recommends
            self.secret is Some,
    {
        match self.secret {
            Some(s) => s@,
            None => Seq::empty(),
        }
    }
}

/// Where the session stands in its lifecycle.
#[derive(Clone, Copy, Debug, PartialEq, Eq, Structural)]
pub enum ClientPhase {
    /// `Hello` is sent; awaiting `Challenge`, `HelloAck` or `Error`.
    /// `answered` records that the one allowed challenge was answered.
    Handshaking { answered: bool },
    /// Handshake done: the server leased this port.
    Active { port: u16 },
    /// Over; every further event is ignored.
    Closed,
}

/// One control session on the client.
pub struct ClientSession {
    pub config: ClientConfig,
    pub phase: ClientPhase,
    /// When the last heartbeat went out.
    pub last_heartbeat: u64,
}

/// What the caller must do after an event, in order.
#[derive(Clone, Debug, PartialEq, Eq)]
pub enum ClientAction {
    /// Write this frame to the control channel.
    SendControl { msg: ControlMessage },
    /// Close the control channel.
    CloseControl,
    /// Pair an announced connection: open a fresh data connection to the
    /// server, send `accept` as its first frame, connect to the local
    /// service, and relay the two. If the local connect fails, close the
    /// data connection and report it; the session continues.
    OpenPairing { id: u128, accept: ControlMessage },
    /// Tell the caller which port the server leased.
    ReportPort { port: u16 },
    /// Tell the caller the session failed, and why. The session is over.
    Fail { reason: TunnelError },
}

impl ClientSession {
    /// Well-formed: a challenge can only have been answered with a secret
    /// at hand.
    pub open spec fn wf(self) -> bool {
        (self.phase matches ClientPhase::Handshaking { answered: true }) ==> self.config.secret
            is Some
    }

    /// Start a session: the caller has connected the control channel, and
    /// sends the returned `Hello` on it.
    pub fn start(config: ClientConfig, now: u64) -> (r: (ClientSession, ControlMessage))
        ensures
            r.0.wf(),
            r.0.config == config,
            r.0.phase == (ClientPhase::Handshaking { answered: false }),
            r.0.last_heartbeat == now,
            r.1@ == (MsgModel::Hello { requested_port: config.requested_port }),
    {
        let hello = ControlMessage::Hello { requested_port: config.requested_port };
        let session = ClientSession {
            config,
            phase: ClientPhase::Handshaking { answered: false },
            last_heartbeat: now,
        };
        (session, hello)
    }

    /// End the session over a failure: report the reason; the control
    /// channel is closed after an error frame naming the reason when
    /// `notify_peer` asks for one.
    fn fail(&mut self, reason: TunnelError, notify_peer: bool) -> (r: Vec<ClientAction>)
        ensures
            final(self).config == old(self).config,
            final(self).last_heartbeat == old(self).last_heartbeat,
            final(self).phase == ClientPhase::Closed,
            r@ == fail_actions(reason, notify_peer),
    {
        self.phase = ClientPhase::Closed;
        let mut actions: Vec<ClientAction> = Vec::new();
        if notify_peer {
            actions.push(ClientAction::SendControl { msg: ControlMessage::Error { reason } });
        }
        actions.push(ClientAction::CloseControl);
        actions.push(ClientAction::Fail { reason });
        assert(actions@ =~= fail_actions(reason, notify_peer));
        actions
    }

    /// Handle one message read from the control channel at time `now`.
    pub fn handle_message(&mut self, m: &ControlMessage, now: u64) -> (r: Vec<ClientAction>)
        requires
            old(self).wf(),
        ensures
            final(self).wf(),
            final(self).config == old(self).config,
            client_msg_post(*old(self), *final(self), m@, r@),
    {
        match self.phase {
            ClientPhase::Handshaking { answered } => {
                match m {
                    ControlMessage::Challenge { nonce } => {
                        let can_answer = !answered && self.config.secret.is_some();
                        if can_answer {
                            let proof_bytes = match &self.config.secret {
                                Some(secret) => prove(secret.as_slice(), *nonce),
                                None => Vec::new(),
                            };
                            self.phase = ClientPhase::Handshaking { answered: true };
                            let mut actions: Vec<ClientAction> = Vec::new();
                            actions.push(ClientAction::SendControl {
                                msg: ControlMessage::Authenticate { proof: proof_bytes },
                            });
                            proof {
                                assert(actions@.len() == 1);
                            }
                            actions
                        } else {
                            self.fail(TunnelError::AuthenticationMismatch, true)
                        }
                    },
                    ControlMessage::HelloAck { leased_port } => {
                        let expects_auth = self.config.secret.is_some() && !answered;
                        if expects_auth {
                            self.fail(TunnelError::AuthenticationMismatch, true)
                        } else {
                            self.phase = ClientPhase::Active { port: *leased_port };
                            let mut actions: Vec<ClientAction> = Vec::new();
                            actions.push(ClientAction::ReportPort { port: *leased_port });
                            assert(actions@ =~= seq![(ClientAction::ReportPort { port: *leased_port })]);
                            actions
                        }
                    },
                    ControlMessage::Error { reason } => self.fail(*reason, false),
                    _ => self.fail(TunnelError::ProtocolViolation, true),
                }
            },
            ClientPhase::Active { .. } => {
                match m {
                    ControlMessage::NewConnection { id } => {
                        let mut actions: Vec<ClientAction> = Vec::new();
                        actions.push(ClientAction::OpenPairing {
                            id: *id,
                            accept: ControlMessage::AcceptConnection { id: *id },
                        });
                        assert(actions@ =~= seq![
                            (ClientAction::OpenPairing {
                                id: *id,
                                accept: (ControlMessage::AcceptConnection { id: *id }),
                            }),
                        ]);
                        actions
                    },
                    ControlMessage::Heartbeat => Vec::new(),
                    ControlMessage::Error { reason } => self.fail(*reason, false),
                    _ => self.fail(TunnelError::ProtocolViolation, true),
                }
            },
            ClientPhase::Closed => Vec::new(),
        }
    }

    /// Advance the clock: while active, send a heartbeat once a full
    /// interval has passed since the last one.
    pub fn tick(&mut self, now: u64) -> (r: Vec<ClientAction>)
        requires
            old(self).wf(),
        ensures
            final(self).wf(),
            final(self).config == old(self).config,
            final(self).phase == old(self).phase,
            if (old(self).phase matches ClientPhase::Active { .. }) && old(self).last_heartbeat
                + old(self).config.heartbeat_interval_ms <= now {
                &&& final(self).last_heartbeat == now
                &&& r@ == seq![(ClientAction::SendControl { msg: ControlMessage::Heartbeat })]
            } else {
                &&& final(self).last_heartbeat == old(self).last_heartbeat
                &&& r@.len() == 0
            },
    {
        let active = match self.phase {
            ClientPhase::Active { .. } => true,
            _ => false,
        };
        if active && should_send(now, self.last_heartbeat, self.config.heartbeat_interval_ms) {
            self.last_heartbeat = now;
            let mut actions: Vec<ClientAction> = Vec::new();
            actions.push(ClientAction::SendControl { msg: ControlMessage::Heartbeat });
            assert(actions@ =~= seq![(ClientAction::SendControl { msg: ControlMessage::Heartbeat })]);
            actions
        } else {
            Vec::new()
        }
    }

    /// A frame on the control channel did not decode: fatal to this
    /// session. The reason goes back to the server and the caller is told.
    pub fn handle_malformed(&mut self, reason: TunnelError) -> (r: Vec<ClientAction>)
        requires
            old(self).wf(),
        ensures
            final(self).wf(),
            final(self).config == old(self).config,
            if old(self).phase == ClientPhase::Closed {
                *final(self) == *old(self) && r@.len() == 0
            } else {
                fail_post(*old(self), *final(self), reason, true, r@)
            },
    {
        match self.phase {
            ClientPhase::Closed => Vec::new(),
            _ => self.fail(reason, true),
        }
    }

    /// The control channel was lost: the session is over; relays already
    /// paired run on independently.
    pub fn handle_closed(&mut self) -> (r: Vec<ClientAction>)
        requires
            old(self).wf(),
        ensures
            final(self).wf(),
            final(self).config == old(self).config,
            final(self).phase == ClientPhase::Closed,
            if old(self).phase == ClientPhase::Closed {
                r@.len() == 0
            } else {
                r@ == seq![(ClientAction::Fail { reason: TunnelError::PeerUnreachable })]
            },
    {
        match self.phase {
            ClientPhase::Closed => Vec::new(),
            _ => {
                self.phase = ClientPhase::Closed;
                let mut actions: Vec<ClientAction> = Vec::new();
                actions.push(ClientAction::Fail { reason: TunnelError::PeerUnreachable });
                assert(actions@ =~= seq![
                    (ClientAction::Fail { reason: TunnelError::PeerUnreachable }),
                ]);
                actions
            },
        }
    }
}

/// The actions that end a session over `reason`: the optional error frame
/// to the peer, closing the control channel, and the caller's report.
pub open spec fn fail_actions(reason: TunnelError, notify_peer: bool) -> Seq<ClientAction> {
    if notify_peer {
        seq![
            (ClientAction::SendControl { msg: ControlMessage::Error { reason } }),
            ClientAction::CloseControl,
            (ClientAction::Fail { reason }),
        ]
    } else {
        seq![ClientAction::CloseControl, (ClientAction::Fail { reason })]
    }
}

/// What one control message does to a client session, by phase.
///
/// In handshake: the one `Challenge` is answered with the proof the secret
/// derives from its nonce — a challenge with no secret at hand, a second
/// challenge, or an ack while the expected challenge is still owed, is an
/// authentication mismatch; `HelloAck` activates the session and reports
/// the leased port; `Error` ends the attempt with the server's reason.
/// While active: each announced id is paired, heartbeats are ignored,
/// `Error` ends the session, and anything else is a protocol violation.
pub open spec fn client_msg_post(
    pre: ClientSession,
    post: ClientSession,
    m: MsgModel,
    actions: Seq<ClientAction>,
) -> bool {
    match pre.phase {
        ClientPhase::Handshaking { answered } => match m {
            MsgModel::Challenge { nonce } => {
                if !answered && pre.config.secret is Some {
                    &&& post.phase == (ClientPhase::Handshaking { answered: true })
                    &&& post.last_heartbeat == pre.last_heartbeat
                    &&& actions.len() == 1
                    &&& match actions[0] {
                        ClientAction::SendControl { msg } => msg@ matches MsgModel::Authenticate {
                            proof,
                        } && proof == spec_proof_of(pre.config.secret_bytes(), nonce),
                        _ => false,
                    }
                } else {
                    fail_post(pre, post, TunnelError::AuthenticationMismatch, true, actions)
                }
            },
            MsgModel::HelloAck { leased_port } => {
                if pre.config.secret is Some && !answered {
                    fail_post(pre, post, TunnelError::AuthenticationMismatch, true, actions)
                } else {
                    &&& post.phase == (ClientPhase::Active { port: leased_port })
                    &&& post.last_heartbeat == pre.last_heartbeat
                    &&& actions == seq![(ClientAction::ReportPort { port: leased_port })]
                }
            },
            MsgModel::Error { reason } => fail_post(pre, post, reason, false, actions),
            _ => fail_post(pre, post, TunnelError::ProtocolViolation, true, actions),
        },
        ClientPhase::Active { .. } => match m {
            MsgModel::NewConnection { id } => {
                &&& post == pre
                &&& actions == seq![
                    (ClientAction::OpenPairing {
                        id,
                        accept: (ControlMessage::AcceptConnection { id }),
                    }),
                ]
            },
            MsgModel::Heartbeat => post == pre && actions.len() == 0,
            MsgModel::Error { reason } => fail_post(pre, post, reason, false, actions),
            _ => fail_post(pre, post, TunnelError::ProtocolViolation, true, actions),
        },
        ClientPhase::Closed => post == pre && actions.len() == 0,
    }
}

/// The session closed over `reason`, reporting it and nothing else.
pub open spec fn fail_post(
    pre: ClientSession,
    post: ClientSession,
    reason: TunnelError,
    notify_peer: bool,
    actions: Seq<ClientAction>,
) -> bool {
    &&& post.phase == ClientPhase::Closed
    &&& post.last_heartbeat == pre.last_heartbeat
    &&& actions == fail_actions(reason, notify_peer)
}

} // verus!
