//! The connection supervisor: accepts one raw connection at a time and
//! drives one session per connection, concurrently and independently.
//!
//! A failure inside one session is isolated to that session: it never stops
//! the supervisor from accepting and never touches another session. The
//! supervisor stops accepting only on an unrecoverable listener-level
//! error.

use vstd::prelude::*;
use crate::errors::Error;
use crate::session::{Role, Session, SessionAction, SessionEvent, SessionState};
use crate::session::{action_of, is_terminal, next_state};

verus! {

/// The supervisor: the sessions it drives, and whether its listener is
/// still able to accept.
pub struct Supervisor {
    /// One session per accepted connection, in accept order. Terminal
    /// sessions stay recorded; their streams are gone.
    pub sessions: Vec<Session>,
    /// False only after an unrecoverable listener-level error.
    pub accepting: bool,
}

/// The relation between the supervisor before and after one session's
/// event was dispatched to session `index`: only that session moves, and
/// acceptance of new connections is untouched.
pub open spec fn session_stepped(
    pre: Supervisor,
    post: Supervisor,
    index: int,
    ev: SessionEvent,
) -> bool {
    &&& post.accepting == pre.accepting
    &&& post.sessions@.len() == pre.sessions@.len()
    &&& forall|j: int|
        0 <= j < pre.sessions@.len() && j != index ==> post.sessions@[j] == pre.sessions@[j]
    &&& post.sessions@[index].role == pre.sessions@[index].role
    &&& post.sessions@[index].next_call_id == pre.sessions@[index].next_call_id
    &&& post.sessions@[index].state == next_state(pre.sessions@[index].state, ev)
}

/// The relation between the supervisor before and after a response with id
/// `id` was delivered to session `index`: exactly the call carrying that id
/// stops being in flight there, and nothing else anywhere changes.
pub open spec fn response_delivered(
    pre: Supervisor,
    post: Supervisor,
    index: int,
    id: u64,
) -> bool {
    &&& post.accepting == pre.accepting
    &&& post.sessions@.len() == pre.sessions@.len()
    &&& forall|j: int|
        0 <= j < pre.sessions@.len() && j != index ==> post.sessions@[j] == pre.sessions@[j]
    &&& post.sessions@[index].role == pre.sessions@[index].role
    &&& post.sessions@[index].state == pre.sessions@[index].state
    &&& post.sessions@[index].next_call_id == pre.sessions@[index].next_call_id
    &&& post.sessions@[index].pending@ == pre.sessions@[index].pending@.remove(
        pre.sessions@[index].pending@.index_of(id),
    )
}

impl Supervisor {
    /// Well-formedness: every session is well formed.
    pub open spec fn wf(self) -> bool {
        forall|i: int| 0 <= i < self.sessions@.len() ==> (#[trigger] self.sessions@[i]).wf()
    }

    /// A supervisor over a freshly bound listener: accepting, no session
    /// yet.
    pub fn new() -> (s: Supervisor)
        ensures
            s.wf(),
            s.accepting,
            s.sessions@.len() == 0,
    {
        Supervisor { sessions: Vec::new(), accepting: true }
    }

    /// Register one accepted raw connection: a fresh server-role session in
    /// `Connected`, leaving every existing session untouched and the
    /// listener accepting.
    pub fn on_accept(&mut self) -> (index: usize)
        requires
            old(self).wf(),
            old(self).accepting,
            old(self).sessions@.len() < usize::MAX,
        ensures
            final(self).wf(),
            final(self).accepting,
            index == old(self).sessions@.len(),
            final(self).sessions@.len() == old(self).sessions@.len() + 1,
            forall|j: int|
                0 <= j < old(self).sessions@.len() ==> final(self).sessions@[j] == old(
                    self,
                ).sessions@[j],
            final(self).sessions@[index as int].role == Role::Server,
            final(self).sessions@[index as int].state == SessionState::Connected,
            final(self).sessions@[index as int].pending@.len() == 0,
    {
        let index = self.sessions.len();
        self.sessions.push(Session::new(Role::Server));
        index
    }

    /// Dispatch one observed event to the session it concerns. Containment:
    /// whatever the event — a handshake failure, a transport error, a
    /// protocol violation — only that session moves; the listener keeps
    /// accepting and every other session is untouched. Returns the action
    /// owed for that session and the ids of its calls failed by the
    /// transition.
    pub fn on_session_event(&mut self, index: usize, event: SessionEvent) -> (r: (
        SessionAction,
        Vec<u64>,
    ))
        requires
            old(self).wf(),
            index < old(self).sessions@.len(),
        ensures
            final(self).wf(),
            session_stepped(*old(self), *final(self), index as int, event),
            r.0 == action_of(
                old(self).sessions@[index as int].role,
                old(self).sessions@[index as int].state,
                event,
            ),
            old(self).sessions@[index as int].state == SessionState::Active && is_terminal(
                final(self).sessions@[index as int].state,
            ) ==> {
                &&& final(self).sessions@[index as int].pending@.len() == 0
                &&& r.1@ == old(self).sessions@[index as int].pending@
            },
            !(old(self).sessions@[index as int].state == SessionState::Active && is_terminal(
                final(self).sessions@[index as int].state,
            )) ==> {
                &&& final(self).sessions@[index as int].pending@ == old(
                    self,
                ).sessions@[index as int].pending@
                &&& r.1@.len() == 0
            },
    {
        let mut sess = self.sessions.remove(index);
        let r = sess.step(event);
        self.sessions.insert(index, sess);
        proof {
            assert(self.sessions@ =~= old(self).sessions@.update(index as int, sess));
        }
        r
    }

    /// Deliver a peer response carrying `id` to the session it concerns:
    /// per-call correlation removes exactly that call there, and nothing
    /// else anywhere changes. Fails (leaving everything unchanged) exactly
    /// when that session is not active or no such call is in flight.
    pub fn deliver_response(&mut self, index: usize, id: u64) -> (r: Result<(), Error>)
        requires
            old(self).wf(),
            index < old(self).sessions@.len(),
        ensures
            final(self).wf(),
            r is Ok <==> old(self).sessions@[index as int].state == SessionState::Active && old(
                self,
            ).sessions@[index as int].pending@.contains(id),
            r is Ok ==> response_delivered(*old(self), *final(self), index as int, id),
            r is Err ==> final(self).sessions@ == old(self).sessions@ && final(self).accepting
                == old(self).accepting,
    {
        let mut sess = self.sessions.remove(index);
        let r = sess.complete_call(id);
        self.sessions.insert(index, sess);
        proof {
            assert(self.sessions@ =~= old(self).sessions@.update(index as int, sess));
            if r is Err {
                assert(self.sessions@ =~= old(self).sessions@);
            }
        }
        match r {
            Ok(()) => Ok(()),
            Err(e) => Err(e),
        }
    }

    /// An unrecoverable listener-level error: the supervisor stops
    /// accepting; existing sessions are untouched and keep running.
    pub fn on_listener_error(&mut self)
        requires
            old(self).wf(),
        ensures
            final(self).wf(),
            !final(self).accepting,
            final(self).sessions@ == old(self).sessions@,
    {
        self.accepting = false;
    }
}

/// Law (failure containment): dispatching any event — in particular a
/// handshake failure, a transport error or a protocol violation — to one
/// session leaves every other session exactly as it was and leaves the
/// supervisor accepting new connections exactly as before.
pub proof fn lemma_failure_containment(
    pre: Supervisor,
    post: Supervisor,
    index: int,
    other: int,
    ev: SessionEvent,
)
    requires
        session_stepped(pre, post, index, ev),
        0 <= other < pre.sessions@.len(),
        other != index,
    ensures
        post.sessions@[other] == pre.sessions@[other],
        post.accepting == pre.accepting,
{
}

/// Law (concurrent calls correlate independently of arrival order): with
/// two calls in flight on two distinct sessions, delivering the peers'
/// responses one after the other leaves each session having completed
/// exactly its own call — the same outcome as if the other response had
/// never arrived, whichever response came first.
pub proof fn lemma_correlation_independent_of_order(
    s0: Supervisor,
    s1: Supervisor,
    s2: Supervisor,
    first: int,
    second: int,
    first_id: u64,
    second_id: u64,
)
    requires
        0 <= first < s0.sessions@.len(),
        0 <= second < s0.sessions@.len(),
        first != second,
        response_delivered(s0, s1, first, first_id),
        response_delivered(s1, s2, second, second_id),
    ensures
        s2.sessions@[first].pending@ == s0.sessions@[first].pending@.remove(
            s0.sessions@[first].pending@.index_of(first_id),
        ),
        s2.sessions@[second].pending@ == s0.sessions@[second].pending@.remove(
            s0.sessions@[second].pending@.index_of(second_id),
        ),
        s2.accepting == s0.accepting,
{
    assert(s1.sessions@[second] == s0.sessions@[second]);
    assert(s2.sessions@[first] == s1.sessions@[first]);
}

} // verus!
