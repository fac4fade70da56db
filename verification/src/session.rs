//! The session-epoch concurrency model. Every hotkey trigger begins a fresh
//! session; exactly one session is active at a time, and beginning a new one
//! implicitly supersedes all earlier ones. Superseded sessions are never
//! cancelled: their later effects are simply discarded by a gate that checks
//! the session id against the active one.

use vstd::prelude::*;

verus! {

/// Issues monotonically increasing session ids and tracks which one is
/// currently active.
pub struct SessionCounter {
    next_session_id: u64,
    active_session_id: u64,
}

impl SessionCounter {
    /// The id that the next `begin_session` call will issue, minus one: every
    /// id issued so far is at most this value.
    pub closed spec fn next(&self) -> u64 {
        self.next_session_id
    }

    /// The id of the currently active session.
    pub closed spec fn active(&self) -> u64 {
        self.active_session_id
    }

    pub open spec fn wf(&self) -> bool {
        self.active() <= self.next()
    }

    /// Whether `session_id` is the active session.
    pub open spec fn is_active_spec(&self, session_id: u64) -> bool {
        self.active() == session_id
    }

    pub fn new() -> (r: SessionCounter)
        ensures
            r.wf(),
            r.next() == 0,
            r.active() == 0,
    {
        SessionCounter { next_session_id: 0, active_session_id: 0 }
    }

    /// Begins a new session: issues a fresh id and makes it the active one,
    /// superseding every id issued before.
    pub fn begin_session(&mut self) -> (session_id: u64)
        requires
            old(self).wf(),
            old(self).next() < u64::MAX,
        ensures
            final(self).wf(),
            session_id == old(self).next() + 1,
            final(self).next() == session_id,
            final(self).active() == session_id,
            final(self).is_active_spec(session_id),
            forall|prior: u64| prior <= old(self).next() ==> !final(self).is_active_spec(prior),
    {
        let session_id = self.next_session_id + 1;
        self.next_session_id = session_id;
        self.active_session_id = session_id;
        session_id
    }

    pub fn is_session_active(&self, session_id: u64) -> (r: bool)
        ensures
            r == self.is_active_spec(session_id),
    {
        self.active_session_id == session_id
    }
}

/// Law: beginning a new session invalidates every session issued before it.
/// If `prior` was issued before a `begin_session` call (so `prior` is at most
/// the pre-state's issue counter), it is not active in the post-state.
pub proof fn lemma_begin_session_invalidates(
    pre: SessionCounter,
    post: SessionCounter,
    prior: u64,
)
    requires
        pre.wf(),
        prior <= pre.next(),
        post.next() == pre.next() + 1,
        post.active() == pre.next() + 1,
    ensures
        !post.is_active_spec(prior),
        post.wf(),
{
}

} // verus!
