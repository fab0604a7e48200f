//! The server side of one control session, as a state machine over received
//! events. The caller owns the sockets and the clock: it decodes frames,
//! reports accepted connections and timer ticks, and performs the returned
//! actions. Sockets are named by opaque handles; the port allocator is the
//! one shared between all sessions and is passed in under the caller's lock,
//! so leasing, releasing and pairing are atomic steps.
//!
//! A client pairs an announced connection by opening a fresh data connection
//! and declaring the id in an `AcceptConnection` frame there; the caller
//! reports that frame through `handle_accept`. An `AcceptConnection` on the
//! control channel itself is a protocol violation, as is any other message
//! outside its handshake step.

use vstd::prelude::*;

use crate::auth::challenge;
use crate::auth::fresh_connection_id;
use crate::auth::spec_verify;
use crate::auth::verify;
use crate::heartbeat::is_expired;
use crate::heartbeat::next_deadline;
use crate::msg::ControlMessage;
use crate::msg::MsgModel;
use crate::msg::TunnelError;
use crate::pairing::claim_post;
use crate::pairing::expired;
use crate::pairing::PairingTable;
use crate::pairing::PendingPairing;
use crate::ports::PortAllocator;

verus! {

/// The server's per-session configuration.
pub struct ServerConfig {
    /// Inclusive range of leasable ports.
    pub min_port: u16,
    /// Inclusive range of leasable ports.
    pub max_port: u16,
    /// The shared secret, or None to run without authentication.
    pub secret: Option<Vec<u8>>,
    /// How long the control channel may stay silent before the session is
    /// taken for dead: several heartbeat intervals.
    pub liveness_window_ms: u64,
    /// How long a pending pairing waits for its data connection.
    pub pairing_timeout_ms: u64,
}

impl ServerConfig {
    /// A non-empty port range.
    pub open spec fn wf(self) -> bool {
        self.min_port <= self.max_port
    }

    /// The configured secret's bytes.
    pub open spec fn secret_bytes(self) -> Seq<u8>
        recommends
            self.secret is Some,
    {
        match self.secret {
            Some(s) => s@,
            None => Seq::empty(),
        }
    }
}

/// Where the session stands in its lifecycle.
#[derive(Clone, Copy, Debug, PartialEq, Eq, Structural)]
pub enum ServerPhase {
    /// Nothing read yet; the first message must be `Hello`.
    AwaitingHello,
    /// A challenge is out; the next message must answer it.
    AwaitingAuth { nonce: u128, requested_port: u16 },
    /// Handshake done: the leased port's listener runs and pairings flow.
    Active { port: u16 },
    /// Torn down; every further event is ignored.
    Closed,
}

/// One client's control session on the server.
pub struct ServerSession {
    pub config: ServerConfig,
    pub phase: ServerPhase,
    pub pairings: PairingTable,
    /// The liveness deadline: if no control message arrives by then, the
    /// session is dead.
    pub deadline: u64,
}

/// What the caller must do after an event, in order.
#[derive(Clone, Debug, PartialEq, Eq)]
pub enum ServerAction {
    /// Write this frame to the control channel.
    SendControl { msg: ControlMessage },
    /// Close the control channel.
    CloseControl,
    /// Bind and start the public listener on the leased port.
    OpenListener { port: u16 },
    /// Stop and close the public listener.
    CloseListener,
    /// Close the socket behind this handle.
    CloseHandle { handle: u64 },
    /// Start the bidirectional relay between these two sockets. The pair
    /// leaves the session's care: it runs to its own completion even if the
    /// session closes.
    StartRelay { public_handle: u64, data_handle: u64 },
}

/// The deadline `window` after `now` on a saturating clock.
pub open spec fn spec_deadline(now: u64, window: u64) -> u64 {
    if now + window <= u64::MAX {
        (now + window) as u64
    } else {
        u64::MAX
    }
}

/// One `CloseHandle` per pending pairing, in table order.
pub open spec fn abort_actions(entries: Seq<PendingPairing>) -> Seq<ServerAction> {
    entries.map_values(|e: PendingPairing| (ServerAction::CloseHandle { handle: e.handle }))
}

impl ServerSession {
    /// Well-formed: sane config, unique pending ids, a challenge out only
    /// when a secret is configured, and pendings only while active.
    pub open spec fn wf(self) -> bool {
        &&& self.config.wf()
        &&& self.pairings.wf()
        &&& (self.phase matches ServerPhase::AwaitingAuth { .. } ==> self.config.secret is Some)
        &&& !(self.phase matches ServerPhase::Active { .. }) ==> self.pairings.count() == 0
    }

    /// A fresh session awaiting its `Hello`, with a full liveness window.
    pub fn new(config: ServerConfig, now: u64) -> (r: ServerSession)
        requires
            config.wf(),
        ensures
            r.wf(),
            r.config == config,
            r.phase == ServerPhase::AwaitingHello,
            r.pairings.count() == 0,
            r.deadline == spec_deadline(now, config.liveness_window_ms),
    {
        let deadline = next_deadline(now, config.liveness_window_ms);
        ServerSession { config, phase: ServerPhase::AwaitingHello, pairings: PairingTable::new(), deadline }
    }

    /// Tear down an active session: release the port, stop the listener,
    /// abort every pending pairing.
    fn close_active(
        &mut self,
        alloc: &mut PortAllocator,
        port: u16,
        send_err: Option<TunnelError>,
    ) -> (r: Vec<ServerAction>)
        requires
            old(self).wf(),
            old(alloc).wf(),
            old(self).phase == (ServerPhase::Active { port }),
        ensures
            final(self).wf(),
            final(alloc).wf(),
            final(self).config == old(self).config,
            active_close_post(*old(self), *final(self), *old(alloc), *final(alloc), port, send_err, r@),
    {
        let mut actions: Vec<ServerAction> = Vec::new();
        match send_err {
            Some(e) => actions.push(ServerAction::SendControl { msg: ControlMessage::Error { reason: e } }),
            None => {},
        }
        actions.push(ServerAction::CloseControl);
        actions.push(ServerAction::CloseListener);
        let ghost base = actions@;
        let ghost entries0 = self.pairings.entries@;
        let n = self.pairings.entries.len();
        let mut k: usize = 0;
        while k < n
            invariant
                entries0 == self.pairings.entries@,
                n == entries0.len(),
                k <= n,
                actions@ == base + abort_actions(entries0.take(k as int)),
            decreases n - k,
        {
            let h = self.pairings.entries[k].handle;
            actions.push(ServerAction::CloseHandle { handle: h });
            k = k + 1;
            assert(actions@ =~= base + abort_actions(entries0.take(k as int)));
        }
        assert(entries0.take(n as int) =~= entries0);
        alloc.release(port);
        self.pairings = PairingTable::new();
        self.phase = ServerPhase::Closed;
        proof {
            let want = match send_err {
                Some(e) => seq![
                    (ServerAction::SendControl { msg: ControlMessage::Error { reason: e } }),
                    ServerAction::CloseControl,
                    ServerAction::CloseListener,
                ],
                None => seq![ServerAction::CloseControl, ServerAction::CloseListener],
            };
            assert(base =~= want);
        }
        actions
    }

    /// Lease a port and enter `Active`, or report the failure and close.
    fn enter_active(&mut self, alloc: &mut PortAllocator, requested: u16, now: u64) -> (r: Vec<
        ServerAction,
    >)
        requires
            old(self).wf(),
            old(alloc).wf(),
            !(old(self).phase matches ServerPhase::Active { .. }),
        ensures
            final(self).wf(),
            final(alloc).wf(),
            final(self).config == old(self).config,
            lease_step_post(*old(self), *final(self), *old(alloc), *final(alloc), requested, now, r@),
    {
        match alloc.lease(requested) {
            Ok(port) => {
                self.phase = ServerPhase::Active { port };
                self.deadline = next_deadline(now, self.config.liveness_window_ms);
                let mut actions: Vec<ServerAction> = Vec::new();
                actions.push(ServerAction::OpenListener { port });
                actions.push(ServerAction::SendControl { msg: ControlMessage::HelloAck { leased_port: port } });
                assert(actions@ =~= seq![
                    (ServerAction::OpenListener { port }),
                    (ServerAction::SendControl { msg: ControlMessage::HelloAck { leased_port: port } }),
                ]);
                actions
            },
            Err(e) => {
                self.phase = ServerPhase::Closed;
                let mut actions: Vec<ServerAction> = Vec::new();
                actions.push(ServerAction::SendControl { msg: ControlMessage::Error { reason: e } });
                actions.push(ServerAction::CloseControl);
                assert(actions@ =~= seq![
                    (ServerAction::SendControl { msg: ControlMessage::Error { reason: e } }),
                    ServerAction::CloseControl,
                ]);
                actions
            },
        }
    }

    /// Close the session over a violation seen outside `Active`.
    fn close_early(&mut self, reason: TunnelError) -> (r: Vec<ServerAction>)
        requires
            old(self).wf(),
            !(old(self).phase matches ServerPhase::Active { .. }),
        ensures
            final(self).wf(),
            final(self).config == old(self).config,
            final(self).phase == ServerPhase::Closed,
            final(self).pairings == old(self).pairings,
            final(self).deadline == old(self).deadline,
            r@ == seq![
                (ServerAction::SendControl { msg: ControlMessage::Error { reason } }),
                ServerAction::CloseControl,
            ],
    {
        self.phase = ServerPhase::Closed;
        let mut actions: Vec<ServerAction> = Vec::new();
        actions.push(ServerAction::SendControl { msg: ControlMessage::Error { reason } });
        actions.push(ServerAction::CloseControl);
        assert(actions@ =~= seq![
            (ServerAction::SendControl { msg: ControlMessage::Error { reason } }),
            ServerAction::CloseControl,
        ]);
        actions
    }

    /// Handle one message read from the control channel at time `now`.
    pub fn handle_message(
        &mut self,
        alloc: &mut PortAllocator,
        m: &ControlMessage,
        now: u64,
    ) -> (r: Vec<ServerAction>)
        requires
            old(self).wf(),
            old(alloc).wf(),
        ensures
            final(self).wf(),
            final(alloc).wf(),
            final(self).config == old(self).config,
            server_msg_post(*old(self), *final(self), *old(alloc), *final(alloc), m@, now, r@),
    {
        match self.phase {
            ServerPhase::AwaitingHello => {
                match m {
                    ControlMessage::Hello { requested_port } => {
                        let has_secret = self.config.secret.is_some();
                        if has_secret {
                            let nonce = challenge();
                            self.phase = ServerPhase::AwaitingAuth {
                                nonce,
                                requested_port: *requested_port,
                            };
                            self.deadline = next_deadline(now, self.config.liveness_window_ms);
                            let mut actions: Vec<ServerAction> = Vec::new();
                            actions.push(ServerAction::SendControl { msg: ControlMessage::Challenge { nonce } });
                            assert(actions@ =~= seq![
                                (ServerAction::SendControl { msg: ControlMessage::Challenge { nonce } }),
                            ]);
                            actions
                        } else {
                            self.enter_active(alloc, *requested_port, now)
                        }
                    },
                    _ => self.close_early(TunnelError::ProtocolViolation),
                }
            },
            ServerPhase::AwaitingAuth { nonce, requested_port } => {
                match m {
                    ControlMessage::Authenticate { proof } => {
                        let ok = match &self.config.secret {
                            Some(secret) => verify(secret.as_slice(), nonce, proof.as_slice()),
                            None => false,
                        };
                        if ok {
                            self.enter_active(alloc, requested_port, now)
                        } else {
                            self.close_early(TunnelError::AuthenticationFailed)
                        }
                    },
                    _ => self.close_early(TunnelError::ProtocolViolation),
                }
            },
            ServerPhase::Active { port } => {
                match m {
                    ControlMessage::Heartbeat => {
                        self.deadline = next_deadline(now, self.config.liveness_window_ms);
                        Vec::new()
                    },
                    ControlMessage::Error { .. } => self.close_active(alloc, port, None),
                    _ => self.close_active(alloc, port, Some(TunnelError::ProtocolViolation)),
                }
            },
            ServerPhase::Closed => Vec::new(),
        }
    }

    /// Record a freshly accepted public connection under the given id and
    /// announce it. A duplicate id, or a session no longer active, refuses
    /// the connection instead.
    pub fn admit_public(&mut self, id: u128, handle: u64, now: u64) -> (r: Vec<ServerAction>)
        requires
            old(self).wf(),
        ensures
            final(self).wf(),
            final(self).config == old(self).config,
            admit_post(*old(self), *final(self), id, handle, now, r@),
    {
        let active = match self.phase {
            ServerPhase::Active { .. } => true,
            _ => false,
        };
        if active {
            let inserted = self.pairings.insert(id, handle, now);
            if inserted {
                let mut actions: Vec<ServerAction> = Vec::new();
                actions.push(ServerAction::SendControl { msg: ControlMessage::NewConnection { id } });
                assert(actions@ =~= seq![
                    (ServerAction::SendControl { msg: ControlMessage::NewConnection { id } }),
                ]);
                actions
            } else {
                let mut actions: Vec<ServerAction> = Vec::new();
                actions.push(ServerAction::CloseHandle { handle });
                assert(actions@ =~= seq![(ServerAction::CloseHandle { handle })]);
                actions
            }
        } else {
            let mut actions: Vec<ServerAction> = Vec::new();
            actions.push(ServerAction::CloseHandle { handle });
            assert(actions@ =~= seq![(ServerAction::CloseHandle { handle })]);
            actions
        }
    }

    /// Accept a public connection: draw a fresh random id, record and
    /// announce it. Whatever id the generator returned, the transition is
    /// exactly `admit_post` for it.
    pub fn accept_public(&mut self, handle: u64, now: u64) -> (r: (u128, Vec<ServerAction>))
        requires
            old(self).wf(),
        ensures
            final(self).wf(),
            final(self).config == old(self).config,
            admit_post(*old(self), *final(self), r.0, handle, now, r.1@),
    {
        let id = fresh_connection_id();
        let actions = self.admit_public(id, handle, now);
        (id, actions)
    }

    /// Handle an `AcceptConnection(id)` declared on a fresh data connection:
    /// claim the pending pairing and start the relay, or — for an unknown,
    /// late or duplicate id — close just that data connection, never the
    /// session.
    pub fn handle_accept(&mut self, id: u128, data_handle: u64) -> (r: Vec<ServerAction>)
        requires
            old(self).wf(),
        ensures
            final(self).wf(),
            final(self).config == old(self).config,
            accept_conn_post(*old(self), *final(self), id, data_handle, r@),
    {
        let active = match self.phase {
            ServerPhase::Active { .. } => true,
            _ => false,
        };
        if active {
            match self.pairings.claim(id) {
                Some(public_handle) => {
                    let mut actions: Vec<ServerAction> = Vec::new();
                    actions.push(ServerAction::StartRelay { public_handle, data_handle });
                    assert(actions@ =~= seq![
                        (ServerAction::StartRelay { public_handle, data_handle }),
                    ]);
                    actions
                },
                None => {
                    let mut actions: Vec<ServerAction> = Vec::new();
                    actions.push(ServerAction::CloseHandle { handle: data_handle });
                    assert(actions@ =~= seq![(ServerAction::CloseHandle { handle: data_handle })]);
                    actions
                },
            }
        } else {
            let mut actions: Vec<ServerAction> = Vec::new();
            actions.push(ServerAction::CloseHandle { handle: data_handle });
            assert(actions@ =~= seq![(ServerAction::CloseHandle { handle: data_handle })]);
            actions
        }
    }

    /// Advance the clock: a silent peer past the liveness window closes the
    /// whole session and releases its port for re-lease; otherwise pending
    /// pairings past their window are abandoned and their sockets closed.
    pub fn tick(&mut self, alloc: &mut PortAllocator, now: u64) -> (r: Vec<ServerAction>)
        requires
            old(self).wf(),
            old(alloc).wf(),
        ensures
            final(self).wf(),
            final(alloc).wf(),
            final(self).config == old(self).config,
            tick_post(*old(self), *final(self), *old(alloc), *final(alloc), now, r@),
    {
        match self.phase {
            ServerPhase::Active { port } => {
                if is_expired(now, self.deadline) {
                    self.close_active(alloc, port, None)
                } else {
                    let handles = self.pairings.expire(now, self.config.pairing_timeout_ms);
                    let ghost gone_handles = handles@;
                    let mut actions: Vec<ServerAction> = Vec::new();
                    let n = handles.len();
                    let mut k: usize = 0;
                    while k < n
                        invariant
                            gone_handles == handles@,
                            n == gone_handles.len(),
                            k <= n,
                            actions@ == gone_handles.take(k as int).map_values(
                                |h: u64| (ServerAction::CloseHandle { handle: h }),
                            ),
                        decreases n - k,
                    {
                        actions.push(ServerAction::CloseHandle { handle: handles[k] });
                        k = k + 1;
                        assert(actions@ =~= gone_handles.take(k as int).map_values(
                            |h: u64| (ServerAction::CloseHandle { handle: h }),
                        ));
                    }
                    assert(gone_handles.take(n as int) =~= gone_handles);
                    actions
                }
            },
            ServerPhase::AwaitingHello => {
                if is_expired(now, self.deadline) {
                    self.phase = ServerPhase::Closed;
                    let mut actions: Vec<ServerAction> = Vec::new();
                    actions.push(ServerAction::CloseControl);
                    assert(actions@ =~= seq![ServerAction::CloseControl]);
                    actions
                } else {
                    Vec::new()
                }
            },
            ServerPhase::AwaitingAuth { .. } => {
                if is_expired(now, self.deadline) {
                    self.phase = ServerPhase::Closed;
                    let mut actions: Vec<ServerAction> = Vec::new();
                    actions.push(ServerAction::CloseControl);
                    assert(actions@ =~= seq![ServerAction::CloseControl]);
                    actions
                } else {
                    Vec::new()
                }
            },
            ServerPhase::Closed => Vec::new(),
        }
    }

    /// A frame on the control channel did not decode: fatal to this
    /// session. The reason — malformed or unknown — goes back to the peer
    /// and the session is torn down like any other violation.
    pub fn handle_malformed(&mut self, alloc: &mut PortAllocator, reason: TunnelError) -> (r: Vec<
        ServerAction,
    >)
        requires
            old(self).wf(),
            old(alloc).wf(),
        ensures
            final(self).wf(),
            final(alloc).wf(),
            final(self).config == old(self).config,
            match old(self).phase {
                ServerPhase::Active { port } => active_close_post(
                    *old(self),
                    *final(self),
                    *old(alloc),
                    *final(alloc),
                    port,
                    Some(reason),
                    r@,
                ),
                ServerPhase::Closed => *final(self) == *old(self) && *final(alloc) == *old(alloc)
                    && r@.len() == 0,
                _ => violation_post(*old(self), *final(self), *old(alloc), *final(alloc), reason, r@),
            },
    {
        match self.phase {
            ServerPhase::Active { port } => self.close_active(alloc, port, Some(reason)),
            ServerPhase::Closed => Vec::new(),
            _ => self.close_early(reason),
        }
    }

    /// Deliberate shutdown, and the control channel's EOF or failure: tear
    /// the session down and release everything it held.
    pub fn close(&mut self, alloc: &mut PortAllocator) -> (r: Vec<ServerAction>)
        requires
            old(self).wf(),
            old(alloc).wf(),
        ensures
            final(self).wf(),
            final(alloc).wf(),
            final(self).config == old(self).config,
            close_post(*old(self), *final(self), *old(alloc), *final(alloc), r@),
    {
        match self.phase {
            ServerPhase::Active { port } => self.close_active(alloc, port, None),
            ServerPhase::Closed => Vec::new(),
            _ => {
                self.phase = ServerPhase::Closed;
                let mut actions: Vec<ServerAction> = Vec::new();
                actions.push(ServerAction::CloseControl);
                assert(actions@ =~= seq![ServerAction::CloseControl]);
                actions
            },
        }
    }
}

/// What tearing down an active session does: the phase ends `Closed`, every
/// pending pairing is dropped, exactly the leased port is released, and the
/// actions are the optional error frame, closing control and listener, then
/// one close per pending socket, in table order.
pub open spec fn active_close_post(
    pre: ServerSession,
    post: ServerSession,
    apre: PortAllocator,
    apost: PortAllocator,
    port: u16,
    send_err: Option<TunnelError>,
    actions: Seq<ServerAction>,
) -> bool {
    &&& post.phase == ServerPhase::Closed
    &&& post.pairings.count() == 0
    &&& post.deadline == pre.deadline
    &&& apre.same_range(apost)
    &&& forall|q: u16| apost.has_leased(q) <==> (apre.has_leased(q) && q != port)
    &&& actions == (match send_err {
        Some(e) => seq![
            (ServerAction::SendControl { msg: ControlMessage::Error { reason: e } }),
            ServerAction::CloseControl,
            ServerAction::CloseListener,
        ],
        None => seq![ServerAction::CloseControl, ServerAction::CloseListener],
    }) + abort_actions(pre.pairings.entries@)
}

/// What trying to enter `Active` does: on a successful lease the phase
/// holds the leased port, the listener is opened and the ack sent; on a
/// lease failure the allocator is untouched and the session closes with the
/// exact error. Which of the two happens, and which error, is fixed by the
/// allocator's state: `lease_ok_post` and `lease_err`.
pub open spec fn lease_step_post(
    pre: ServerSession,
    post: ServerSession,
    apre: PortAllocator,
    apost: PortAllocator,
    requested: u16,
    now: u64,
    actions: Seq<ServerAction>,
) -> bool {
    &&& post.pairings == pre.pairings
    &&& match post.phase {
        ServerPhase::Active { port } => {
            &&& PortAllocator::lease_ok_post(apre, apost, requested, port)
            &&& post.deadline == spec_deadline(now, pre.config.liveness_window_ms)
            &&& actions == seq![
                (ServerAction::OpenListener { port }),
                (ServerAction::SendControl { msg: ControlMessage::HelloAck { leased_port: port } }),
            ]
        },
        ServerPhase::Closed => {
            &&& apost == apre
            &&& post.deadline == pre.deadline
            &&& exists|e: TunnelError|
                PortAllocator::lease_err(apre, requested, e) && actions == seq![
                    (ServerAction::SendControl { msg: ControlMessage::Error { reason: e } }),
                    ServerAction::CloseControl,
                ]
        },
        _ => false,
    }
}

/// What one control message does to a server session, by phase: the
/// handshake steps, liveness reset, and the violation and error paths.
pub open spec fn server_msg_post(
    pre: ServerSession,
    post: ServerSession,
    apre: PortAllocator,
    apost: PortAllocator,
    m: MsgModel,
    now: u64,
    actions: Seq<ServerAction>,
) -> bool {
    match pre.phase {
        ServerPhase::AwaitingHello => match m {
            MsgModel::Hello { requested_port } => {
                if pre.config.secret is Some {
                    &&& apost == apre
                    &&& post.pairings == pre.pairings
                    &&& post.deadline == spec_deadline(now, pre.config.liveness_window_ms)
                    &&& match post.phase {
                        ServerPhase::AwaitingAuth { nonce, requested_port: rp } => {
                            &&& rp == requested_port
                            &&& actions == seq![
                                (ServerAction::SendControl {
                                    msg: ControlMessage::Challenge { nonce },
                                }),
                            ]
                        },
                        _ => false,
                    }
                } else {
                    lease_step_post(pre, post, apre, apost, requested_port, now, actions)
                }
            },
            _ => violation_post(pre, post, apre, apost, TunnelError::ProtocolViolation, actions),
        },
        ServerPhase::AwaitingAuth { nonce, requested_port } => match m {
            MsgModel::Authenticate { proof } => {
                if spec_verify(pre.config.secret_bytes(), nonce, proof) {
                    lease_step_post(pre, post, apre, apost, requested_port, now, actions)
                } else {
                    violation_post(pre, post, apre, apost, TunnelError::AuthenticationFailed, actions)
                }
            },
            _ => violation_post(pre, post, apre, apost, TunnelError::ProtocolViolation, actions),
        },
        ServerPhase::Active { port } => match m {
            MsgModel::Heartbeat => {
                &&& apost == apre
                &&& post.phase == pre.phase
                &&& post.pairings == pre.pairings
                &&& post.deadline == spec_deadline(now, pre.config.liveness_window_ms)
                &&& actions.len() == 0
            },
            MsgModel::Error { .. } => active_close_post(pre, post, apre, apost, port, None, actions),
            _ => active_close_post(
                pre,
                post,
                apre,
                apost,
                port,
                Some(TunnelError::ProtocolViolation),
                actions,
            ),
        },
        ServerPhase::Closed => post == pre && apost == apre && actions.len() == 0,
    }
}

/// A violation outside `Active` closes the session, sends the reason, and
/// touches nothing else.
pub open spec fn violation_post(
    pre: ServerSession,
    post: ServerSession,
    apre: PortAllocator,
    apost: PortAllocator,
    reason: TunnelError,
    actions: Seq<ServerAction>,
) -> bool {
    &&& post.phase == ServerPhase::Closed
    &&& post.pairings == pre.pairings
    &&& post.deadline == pre.deadline
    &&& apost == apre
    &&& actions == seq![
        (ServerAction::SendControl { msg: ControlMessage::Error { reason } }),
        ServerAction::CloseControl,
    ]
}

/// What admitting a public connection does: while active and under a fresh
/// id, the pairing is recorded with `now` as its creation time and the id
/// announced; under a duplicate id, or once no longer active, the public
/// socket is closed and nothing recorded.
pub open spec fn admit_post(
    pre: ServerSession,
    post: ServerSession,
    id: u128,
    handle: u64,
    now: u64,
    actions: Seq<ServerAction>,
) -> bool {
    if (pre.phase matches ServerPhase::Active { .. }) && !pre.pairings.has_id(id) {
        &&& post.phase == pre.phase
        &&& post.deadline == pre.deadline
        &&& post.pairings.entries@ == pre.pairings.entries@.push(
            (PendingPairing { id, handle, created_at: now }),
        )
        &&& actions == seq![
            (ServerAction::SendControl { msg: ControlMessage::NewConnection { id } }),
        ]
    } else {
        &&& post == pre
        &&& actions == seq![(ServerAction::CloseHandle { handle })]
    }
}

/// What an `AcceptConnection` on a fresh data connection does: exactly one
/// claim can win the pending pairing, and the relay starts between the
/// claimed public socket and this data connection; an unknown, late or
/// duplicate id costs only the data connection.
pub open spec fn accept_conn_post(
    pre: ServerSession,
    post: ServerSession,
    id: u128,
    data_handle: u64,
    actions: Seq<ServerAction>,
) -> bool {
    match pre.phase {
        ServerPhase::Active { .. } => {
            &&& post.phase == pre.phase
            &&& post.deadline == pre.deadline
            &&& exists|r: Option<u64>|
                claim_post(pre.pairings, post.pairings, id, r) && actions == (match r {
                    Some(h) => seq![(ServerAction::StartRelay { public_handle: h, data_handle })],
                    None => seq![(ServerAction::CloseHandle { handle: data_handle })],
                })
        },
        _ => post == pre && actions == seq![(ServerAction::CloseHandle { handle: data_handle })],
    }
}

/// What a timer tick does: past the liveness deadline an active session is
/// torn down whole — heartbeat timeout — releasing its port; inside the
/// window only pairings past their own timeout are abandoned, their sockets
/// closed, in table order. A session still in handshake past the deadline
/// just closes its control channel.
pub open spec fn tick_post(
    pre: ServerSession,
    post: ServerSession,
    apre: PortAllocator,
    apost: PortAllocator,
    now: u64,
    actions: Seq<ServerAction>,
) -> bool {
    match pre.phase {
        ServerPhase::Active { port } => {
            if now >= pre.deadline {
                active_close_post(pre, post, apre, apost, port, None, actions)
            } else {
                &&& apost == apre
                &&& post.phase == pre.phase
                &&& post.deadline == pre.deadline
                &&& post.pairings.entries@ == pre.pairings.entries@.filter(
                    |e: PendingPairing| !expired(e, now, pre.config.pairing_timeout_ms),
                )
                &&& actions == pre.pairings.entries@.filter(
                    |e: PendingPairing| expired(e, now, pre.config.pairing_timeout_ms),
                ).map_values(|e: PendingPairing| e.handle).map_values(
                    |h: u64| (ServerAction::CloseHandle { handle: h }),
                )
            }
        },
        ServerPhase::Closed => post == pre && apost == apre && actions.len() == 0,
        _ => {
            if now >= pre.deadline {
                &&& post.phase == ServerPhase::Closed
                &&& post.pairings == pre.pairings
                &&& post.deadline == pre.deadline
                &&& apost == apre
                &&& actions == seq![ServerAction::CloseControl]
            } else {
                post == pre && apost == apre && actions.len() == 0
            }
        },
    }
}

/// What closing does from any phase: an active session is torn down whole;
/// a session still in handshake closes its control channel; a closed one is
/// left as it is.
pub open spec fn close_post(
    pre: ServerSession,
    post: ServerSession,
    apre: PortAllocator,
    apost: PortAllocator,
    actions: Seq<ServerAction>,
) -> bool {
    match pre.phase {
        ServerPhase::Active { port } => active_close_post(pre, post, apre, apost, port, None, actions),
        ServerPhase::Closed => post == pre && apost == apre && actions.len() == 0,
        _ => {
            &&& post.phase == ServerPhase::Closed
            &&& post.pairings == pre.pairings
            &&& post.deadline == pre.deadline
            &&& apost == apre
            &&& actions == seq![ServerAction::CloseControl]
        },
    }
}

/// Heartbeat timeout frees the port for the next client: after a tick past
/// the deadline of an active session, the session is closed and its port is
/// unleased, so a later lease of that exact port must succeed.
pub proof fn lemma_timeout_releases_port(
    pre: ServerSession,
    post: ServerSession,
    apre: PortAllocator,
    apost: PortAllocator,
    port: u16,
    now: u64,
    actions: Seq<ServerAction>,
)
    requires
        pre.phase == (ServerPhase::Active { port }),
        now >= pre.deadline,
        tick_post(pre, post, apre, apost, now, actions),
    ensures
        post.phase == ServerPhase::Closed,
        !apost.has_leased(port),
        post.pairings.count() == 0,
{
}

} // verus!
