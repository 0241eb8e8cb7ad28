//! Connection manager: a state machine over Disconnected and Connected that
//! owns the logical lifecycle of the transport handle. The transport calls
//! themselves (open the socket, write a frame, close) happen outside the
//! engine; each operation here either decides what the transport must do or
//! records how a transport call turned out.

use vstd::prelude::*;

use crate::timestamp::SessionClock;

verus! {

/// What an action can fail with. Every failure is reported once to the
/// caller; the engine never retries on its own.
#[derive(Debug, Clone, Copy, PartialEq, Eq, Structural)]
pub enum PresenceError {
    /// The identity was empty, or the transport handshake failed.
    ConnectionError,
    /// The transport write failed while connected.
    SendError,
    /// The transport close failed on teardown.
    DisconnectionError,
}

/// The connection state: disconnected, or connected with the identity the
/// handle was opened for.
#[derive(Debug, Clone, PartialEq)]
pub enum ConnState {
    Disconnected,
    Connected { identity: String },
}

/// One transport operation the caller is asked to perform.
#[derive(Debug, Clone, Copy, PartialEq, Eq, Structural)]
pub enum TransportOp {
    /// Release the current handle.
    Close,
    /// Open a handle for the current identity and shake hands.
    Open,
}

/// The manager itself. Invariant of the surrounding engine: while connected,
/// the bound identity equals the field model's identity; any mismatch forces
/// a close-and-reopen before the next send (see `ensure_identity_plan`).
pub struct ConnectionManager {
    pub state: ConnState,
}

impl ConnectionManager {
    pub open spec fn spec_connected(self) -> bool {
        self.state is Connected
    }

    /// The identity the handle was opened for; meaningful only while
    /// connected.
    pub open spec fn spec_identity(self) -> Seq<char> {
        match self.state {
            ConnState::Connected { identity } => identity@,
            ConnState::Disconnected => Seq::empty(),
        }
    }

    pub fn new() -> (r: ConnectionManager)
        ensures
            !r.spec_connected(),
    {
        ConnectionManager { state: ConnState::Disconnected }
    }

    pub fn is_connected(&self) -> (r: bool)
        ensures
            r == self.spec_connected(),
    {
        match self.state {
            ConnState::Connected { .. } => true,
            ConnState::Disconnected => false,
        }
    }

    /// The first half of `connect`: an empty identity is rejected before the
    /// transport is ever touched, and the state stays Disconnected.
    pub fn connect_begin(&self, identity: &String) -> (r: Result<(), PresenceError>)
        requires
            !self.spec_connected(),
        ensures
            r == if identity@.len() == 0 {
                Err::<(), PresenceError>(PresenceError::ConnectionError)
            } else {
                Ok::<(), PresenceError>(())
            },
    {
        if identity.as_str().is_empty() {
            Err(PresenceError::ConnectionError)
        } else {
            Ok(())
        }
    }

    /// The second half of `connect`: records how the transport handshake
    /// went. Success binds the handle to the identity it was opened for;
    /// failure leaves the manager disconnected.
    pub fn connect_finish(&mut self, identity: String, handshake_ok: bool) -> (r: Result<
        (),
        PresenceError,
    >)
        requires
            !old(self).spec_connected(),
            identity@.len() > 0,
        ensures
            handshake_ok ==> r == Ok::<(), PresenceError>(()) && final(self).spec_connected()
                && final(self).spec_identity() == identity@,
            !handshake_ok ==> r == Err::<(), PresenceError>(PresenceError::ConnectionError)
                && !final(self).spec_connected(),
    {
        if handshake_ok {
            self.state = ConnState::Connected { identity };
            Ok(())
        } else {
            Err(PresenceError::ConnectionError)
        }
    }

    /// Tears the connection down. The state becomes Disconnected even when
    /// the transport close failed: teardown fails open, so the session is
    /// never stuck on a dead handle; the failure is still reported.
    pub fn disconnect(&mut self, close_ok: bool) -> (r: Result<(), PresenceError>)
        requires
            old(self).spec_connected(),
        ensures
            !final(self).spec_connected(),
            r == if close_ok {
                Ok::<(), PresenceError>(())
            } else {
                Err::<(), PresenceError>(PresenceError::DisconnectionError)
            },
    {
        self.state = ConnState::Disconnected;
        if close_ok {
            Ok(())
        } else {
            Err(PresenceError::DisconnectionError)
        }
    }

    /// The reconnect decision of `ensure_identity`: exactly one close and one
    /// reopen when the manager is connected and bound to a different
    /// identity, and nothing — no close, no reopen — otherwise. This is the
    /// sole reconnection mechanism; nothing reconnects on failure.
    pub fn ensure_identity_plan(&self, identity: &String) -> (r: Vec<TransportOp>)
        ensures
            self.spec_connected() && self.spec_identity() != identity@ ==> r@ == seq![
                TransportOp::Close,
                TransportOp::Open,
            ],
            !(self.spec_connected() && self.spec_identity() != identity@) ==> r@ == Seq::<
                TransportOp,
            >::empty(),
    {
        let needs_reconnect: bool = match &self.state {
            ConnState::Connected { identity: bound } => !bound.eq(identity),
            ConnState::Disconnected => false,
        };
        let mut ops: Vec<TransportOp> = Vec::new();
        if needs_reconnect {
            ops.push(TransportOp::Close);
            ops.push(TransportOp::Open);
            proof {
                assert(ops@ =~= seq![TransportOp::Close, TransportOp::Open]);
            }
        } else {
            proof {
                assert(ops@ =~= Seq::<TransportOp>::empty());
            }
        }
        ops
    }

    /// Records how one payload push went. A successful push stamps the
    /// session clock's last-update mark with the push instant; a failed one
    /// leaves the clock untouched. The connection state is unchanged either
    /// way: on failure the caller decides whether to stay connected or to
    /// tear down.
    pub fn send_finish(&self, clock: &mut SessionClock, now: i64, write_ok: bool) -> (r: Result<
        (),
        PresenceError,
    >)
        requires
            self.spec_connected(),
        ensures
            write_ok ==> r == Ok::<(), PresenceError>(()) && final(clock).last_update_at == now
                && final(clock).session_started_at == old(clock).session_started_at,
            !write_ok ==> r == Err::<(), PresenceError>(PresenceError::SendError) && *final(clock)
                == *old(clock),
    {
        if write_ok {
            clock.last_update_at = now;
            Ok(())
        } else {
            Err(PresenceError::SendError)
        }
    }
}

} // verus!
