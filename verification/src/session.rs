//! The two-party RPC session state machine.
//!
//! Per session: `Connected -> Handshaking -> Active -> Closed | Failed`.
//! In `Active`, calls may be pipelined: several may be in flight at once,
//! each identified by a fresh call id, and a response correlates with
//! exactly the call carrying its id — correctness never depends on response
//! order. Closing or failing the session fails every in-flight call.

use vstd::prelude::*;
use crate::errors::{Error, ErrorKind};

verus! {

/// The network role of one end of a session; capability reference
/// numbering is unambiguous between the peers because the two ends carry
/// different roles.
#[derive(Clone, Copy, Debug, PartialEq, Eq, Structural)]
pub enum Role {
    /// The accepting end, which offers the served capability.
    Server,
    /// The connecting end, which resolves the peer's bootstrap capability.
    Client,
}

/// The lifecycle state of one session.
#[derive(Clone, Copy, Debug, PartialEq, Eq, Structural)]
pub enum SessionState {
    /// The raw stream was accepted or opened.
    Connected,
    /// TLS negotiation is in progress.
    Handshaking,
    /// The secure stream is split and the framing layer runs over it.
    Active,
    /// A peer closed cleanly.
    Closed,
    /// A read/write error or a protocol violation ended the session.
    Failed,
}

/// An observed event a session reacts to.
#[derive(Clone, Copy, Debug, PartialEq, Eq, Structural)]
pub enum SessionEvent {
    /// TLS negotiation began on the raw stream.
    HandshakeStarted,
    /// TLS negotiation completed.
    HandshakeSucceeded,
    /// TLS negotiation failed.
    HandshakeFailed,
    /// The peer closed the stream cleanly.
    PeerClosed,
    /// A read or write on the stream failed.
    TransportError,
    /// The framing layer saw a malformed or out-of-order message.
    ProtocolViolation,
}

/// What the surrounding transport code must do after a transition.
#[derive(Clone, Copy, Debug, PartialEq, Eq, Structural)]
pub enum SessionAction {
    /// Drive the TLS handshake on the raw stream.
    StartTls,
    /// Split the stream and install the served capability as the bootstrap
    /// interface offered to the peer (server role).
    OfferBootstrap,
    /// Split the stream and resolve a reference to the peer's bootstrap
    /// capability (client role).
    ResolveBootstrap,
    /// Discard the session without registering it.
    DiscardSession,
    /// Fail every in-flight call with a cancellation-kind error and release
    /// the stream.
    FailPendingCalls,
    /// Nothing: the event does not apply in the current state.
    Ignore,
}

/// Whether a state is terminal: the session is over and no call can be
/// begun or completed on it any more.
pub open spec fn is_terminal(s: SessionState) -> bool {
    s == SessionState::Closed || s == SessionState::Failed
}

/// The state transition relation of one session.
pub open spec fn next_state(s: SessionState, ev: SessionEvent) -> SessionState {
    match (s, ev) {
        (SessionState::Connected, SessionEvent::HandshakeStarted) => SessionState::Handshaking,
        (SessionState::Handshaking, SessionEvent::HandshakeSucceeded) => SessionState::Active,
        (SessionState::Handshaking, SessionEvent::HandshakeFailed) => SessionState::Failed,
        (SessionState::Active, SessionEvent::PeerClosed) => SessionState::Closed,
        (SessionState::Active, SessionEvent::TransportError) => SessionState::Failed,
        (SessionState::Active, SessionEvent::ProtocolViolation) => SessionState::Failed,
        _ => s,
    }
}

/// The action owed to the transport code for a transition.
pub open spec fn action_of(role: Role, s: SessionState, ev: SessionEvent) -> SessionAction {
    match (s, ev) {
        (SessionState::Connected, SessionEvent::HandshakeStarted) => SessionAction::StartTls,
        (SessionState::Handshaking, SessionEvent::HandshakeSucceeded) => if role == Role::Server {
            SessionAction::OfferBootstrap
        } else {
            SessionAction::ResolveBootstrap
        },
        (SessionState::Handshaking, SessionEvent::HandshakeFailed) => SessionAction::DiscardSession,
        (SessionState::Active, SessionEvent::PeerClosed) => SessionAction::FailPendingCalls,
        (SessionState::Active, SessionEvent::TransportError) => SessionAction::FailPendingCalls,
        (SessionState::Active, SessionEvent::ProtocolViolation) => SessionAction::FailPendingCalls,
        _ => SessionAction::Ignore,
    }
}

/// One two-party RPC session: its role, lifecycle state, and the ids of the
/// calls in flight on it. No session outlives its underlying stream; the
/// stream itself is held by the transport code.
pub struct Session {
    /// Which end of the connection this session is.
    pub role: Role,
    /// Where in the lifecycle the session stands.
    pub state: SessionState,
    /// The next fresh call id.
    pub next_call_id: u64,
    /// The ids of the calls in flight, oldest first.
    pub pending: Vec<u64>,
}

impl Session {
    /// Well-formedness: call ids in flight are pairwise distinct and below
    /// the id counter, and calls are in flight only while the session is
    /// active.
    pub open spec fn wf(self) -> bool {
        &&& forall|i: int, j: int|
            0 <= i < j < self.pending@.len() ==> self.pending@[i] != self.pending@[j]
        &&& forall|i: int| 0 <= i < self.pending@.len() ==> #[trigger] self.pending@[i]
            < self.next_call_id
        &&& self.pending@.len() > 0 ==> self.state == SessionState::Active
    }

    /// A fresh session over a just accepted or just opened raw stream.
    pub fn new(role: Role) -> (s: Session)
        ensures
            s.role == role,
            s.state == SessionState::Connected,
            s.next_call_id == 0,
            s.pending@.len() == 0,
            s.wf(),
    {
        Session { role, state: SessionState::Connected, next_call_id: 0, pending: Vec::new() }
    }

    /// React to one observed event: move to the successor state and tell
    /// the transport code what it owes. Leaving `Active` for a terminal
    /// state fails every in-flight call: their ids come back as the second
    /// component, in order, and nothing stays pending.
    pub fn step(&mut self, event: SessionEvent) -> (r: (SessionAction, Vec<u64>))
        requires
            old(self).wf(),
        ensures
            final(self).wf(),
            final(self).role == old(self).role,
            final(self).next_call_id == old(self).next_call_id,
            final(self).state == next_state(old(self).state, event),
            r.0 == action_of(old(self).role, old(self).state, event),
            old(self).state == SessionState::Active && is_terminal(final(self).state) ==> {
                &&& final(self).pending@.len() == 0
                &&& r.1@ == old(self).pending@
            },
            !(old(self).state == SessionState::Active && is_terminal(final(self).state)) ==> {
                &&& final(self).pending@ == old(self).pending@
                &&& r.1@.len() == 0
            },
    {
        let action = match (self.state, event) {
            (SessionState::Connected, SessionEvent::HandshakeStarted) => {
                self.state = SessionState::Handshaking;
                SessionAction::StartTls
            },
            (SessionState::Handshaking, SessionEvent::HandshakeSucceeded) => {
                self.state = SessionState::Active;
                if self.role == Role::Server {
                    SessionAction::OfferBootstrap
                } else {
                    SessionAction::ResolveBootstrap
                }
            },
            (SessionState::Handshaking, SessionEvent::HandshakeFailed) => {
                self.state = SessionState::Failed;
                SessionAction::DiscardSession
            },
            (SessionState::Active, SessionEvent::PeerClosed) => {
                self.state = SessionState::Closed;
                SessionAction::FailPendingCalls
            },
            (SessionState::Active, SessionEvent::TransportError) => {
                self.state = SessionState::Failed;
                SessionAction::FailPendingCalls
            },
            (SessionState::Active, SessionEvent::ProtocolViolation) => {
                self.state = SessionState::Failed;
                SessionAction::FailPendingCalls
            },
            _ => SessionAction::Ignore,
        };
        let mut cancelled: Vec<u64> = Vec::new();
        if matches!(action, SessionAction::FailPendingCalls) {
            core::mem::swap(&mut self.pending, &mut cancelled);
        }
        (action, cancelled)
    }

    /// Begin one call: hand out a fresh id and record it as in flight.
    /// Succeeds exactly while the session is active and ids are not
    /// exhausted; otherwise the session is unchanged and the error is of
    /// protocol kind.
    pub fn begin_call(&mut self) -> (r: Result<u64, Error>)
        requires
            old(self).wf(),
        ensures
            final(self).wf(),
            final(self).role == old(self).role,
            final(self).state == old(self).state,
            r is Ok <==> old(self).state == SessionState::Active && old(self).next_call_id
                < u64::MAX,
            r matches Ok(id) ==> {
                &&& id == old(self).next_call_id
                &&& !old(self).pending@.contains(id)
                &&& final(self).pending@ == old(self).pending@.push(id)
                &&& final(self).next_call_id == old(self).next_call_id + 1
            },
            r is Err ==> final(self).pending@ == old(self).pending@ && final(self).next_call_id
                == old(self).next_call_id,
            r matches Err(e) ==> e.kind == ErrorKind::Protocol,
    {
        if !matches!(self.state, SessionState::Active) {
            return Err(Error::protocol("call begun on a session that is not active".to_owned()));
        }
        if self.next_call_id == u64::MAX {
            return Err(Error::protocol("call ids exhausted on this session".to_owned()));
        }
        let id = self.next_call_id;
        proof {
            assert(!self.pending@.contains(id)) by {
                if self.pending@.contains(id) {
                    let k = self.pending@.index_of(id);
                    assert(self.pending@[k] < self.next_call_id);
                }
            }
        }
        self.pending.push(id);
        self.next_call_id = self.next_call_id + 1;
        Ok(id)
    }

    /// Correlate a response with the call carrying its id: exactly that
    /// call stops being in flight; every other call is untouched. Succeeds
    /// exactly when the session is active and the id is in flight;
    /// otherwise the session is unchanged and the error is of protocol kind
    /// (a response with no matching call is a framing violation).
    pub fn complete_call(&mut self, id: u64) -> (r: Result<(), Error>)
        requires
            old(self).wf(),
        ensures
            final(self).wf(),
            final(self).role == old(self).role,
            final(self).state == old(self).state,
            final(self).next_call_id == old(self).next_call_id,
            r is Ok <==> old(self).state == SessionState::Active && old(self).pending@.contains(
                id,
            ),
            r is Ok ==> final(self).pending@ == old(self).pending@.remove(
                old(self).pending@.index_of(id),
            ),
            r is Err ==> *final(self) == *old(self),
            r matches Err(e) ==> e.kind == ErrorKind::Protocol,
    {
        if !matches!(self.state, SessionState::Active) {
            return Err(Error::protocol(
                "response delivered to a session that is not active".to_owned(),
            ));
        }
        let n = self.pending.len();
        let mut i: usize = 0;
        while i < n
            invariant
                *self == *old(self),
                old(self).wf(),
                old(self).state == SessionState::Active,
                i <= n,
                n == self.pending@.len(),
                forall|k: int| 0 <= k < i ==> self.pending@[k] != id,
            decreases n - i,
        {
            if self.pending[i] == id {
                proof {
                    let pend = self.pending@;
                    assert(pend[i as int] == id);
                    assert(pend.contains(id));
                    let w = pend.index_of(id);
                    assert(0 <= w < pend.len() && pend[w] == id);
                    assert(w == i as int) by {
                        if w < i as int {
                            assert(pend[w] != id);
                        }
                        if w > i as int {
                            assert(pend[i as int] != pend[w]);
                        }
                    }
                }
                self.pending.remove(i);
                return Ok(());
            }
            i = i + 1;
        }
        proof {
            assert(!self.pending@.contains(id)) by {
                if self.pending@.contains(id) {
                    let w = self.pending@.index_of(id);
                    assert(self.pending@[w] == id);
                }
            }
        }
        Err(Error::protocol("response does not correlate with any call in flight".to_owned()))
    }
}

} // verus!
