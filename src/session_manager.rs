use vstd::prelude::*;

use crate::node::{IdentifierView, NodeId};
use crate::session::{authentication_token_for, is_fresh, token_bytes, ServerState, Session};

verus! {

/// Whether session `s` carries the numeric id `n` in namespace 1.
pub open spec fn has_number(s: Session, n: u32) -> bool {
    s.session_id@ == (1u16, IdentifierView::Numeric(n as u64))
}

/// The number in the id of session `s`, or -1 when its id is not numeric.
pub open spec fn id_number(s: Session) -> int {
    match s.session_id@.1 {
        IdentifierView::Numeric(n) => n as int,
        IdentifierView::String(_) => -1,
    }
}

/// Holds of the sessions that are not terminated.
pub open spec fn is_live() -> spec_fn(Session) -> bool {
    |s: Session| !s.terminated
}

/// The server's table of sessions.
pub struct SessionManager {
    /// Sessions, oldest first; terminated ones stay until purged
    pub sessions: Vec<Session>,
    /// Last number handed out as a session id
    pub last_session_id: u32,
}

impl SessionManager {
    /// Every session carries a numeric id in namespace 1 that was handed out
    /// already, and no two sessions share one.
    pub open spec fn wf(&self) -> bool {
        &&& forall|i: int|
            0 <= i < self.sessions@.len() ==> {
                let s = #[trigger] self.sessions@[i];
                &&& s.session_id@.0 == 1
                &&& s.session_id@.1 is Numeric
                &&& 1 <= id_number(s) <= self.last_session_id
            }
        &&& forall|i: int, j: int|
            0 <= i < j < self.sessions@.len() ==> (#[trigger] self.sessions@[i]).session_id@
                != (#[trigger] self.sessions@[j]).session_id@
    }

    /// An empty table.
    pub fn new() -> (r: SessionManager)
        ensures
            r.wf(),
            r.sessions@.len() == 0,
            r.last_session_id == 0,
    {
        SessionManager { sessions: Vec::new(), last_session_id: 0 }
    }

    /// Creates a session with the next id and adds it to the table. Ids are
    /// never reused: once they run out, no session is created and `None` is
    /// returned.
    pub fn create_session(&mut self, server_state: &ServerState) -> (r: Option<NodeId>)
        requires
            old(self).wf(),
        ensures
            final(self).wf(),
            old(self).last_session_id == u32::MAX ==> r is None && final(self).sessions@ == old(
                self,
            ).sessions@ && final(self).last_session_id == old(self).last_session_id,
            old(self).last_session_id < u32::MAX ==> {
                &&& final(self).last_session_id == old(self).last_session_id + 1
                &&& r matches Some(id) && id@ == (1u16, IdentifierView::Numeric(
                    final(self).last_session_id as u64,
                ))
                &&& final(self).sessions@.len() == old(self).sessions@.len() + 1
                &&& final(self).sessions@.drop_last() == old(self).sessions@
                &&& has_number(final(self).sessions@.last(), final(self).last_session_id)
                &&& is_fresh(final(self).sessions@.last(), *server_state)
                &&& final(self).sessions@.last().authentication_token@ == (1u16, IdentifierView::String(
                    token_bytes(final(self).last_session_id),
                ))
                &&& final(self).sessions@.last().authentication_token@
                    != final(self).sessions@.last().session_id@
            },
    {
        if self.last_session_id == u32::MAX {
            return None;
        }
        let n = self.last_session_id + 1;
        let mut session = Session::new(server_state);
        session.session_id = NodeId::new(1, n as u64);
        session.authentication_token = authentication_token_for(n);
        let ghost before = self.sessions@;
        self.sessions.push(session);
        self.last_session_id = n;
        proof {
            assert(self.sessions@.drop_last() =~= before);
            assert forall|i: int, j: int| 0 <= i < j < self.sessions@.len() implies (
            #[trigger] self.sessions@[i]).session_id@ != (#[trigger] self.sessions@[j]).session_id@ by {
                if j == before.len() {
                    assert(self.sessions@[i] == before[i]);
                    assert(id_number(before[i]) < n);
                }
            }
        }
        Some(NodeId::new(1, n as u64))
    }

    /// The position of the session with the id `id`, or `None` if there is none.
    pub fn find_session(&self, id: &NodeId) -> (r: Option<usize>)
        ensures
            r matches Some(i) ==> i < self.sessions@.len() && self.sessions@[i as int].session_id@
                == id@,
            r is None ==> forall|i: int|
                0 <= i < self.sessions@.len() ==> (#[trigger] self.sessions@[i]).session_id@ != id@,
    {
        let mut i: usize = 0;
        while i < self.sessions.len()
            invariant
                i <= self.sessions@.len(),
                forall|j: int| 0 <= j < i ==> (#[trigger] self.sessions@[j]).session_id@ != id@,
            decreases self.sessions@.len() - i,
        {
            if self.sessions[i].session_id.same_as(id) {
                return Some(i);
            }
            i = i + 1;
        }
        None
    }

    /// Marks the session with the id `id` terminated at `now`; false when no
    /// session has that id. A terminated session keeps its first instant.
    pub fn terminate_session(&mut self, id: &NodeId, now: i64) -> (r: bool)
        requires
            old(self).wf(),
        ensures
            final(self).wf(),
            final(self).last_session_id == old(self).last_session_id,
            final(self).sessions@.len() == old(self).sessions@.len(),
            r == exists|i: int|
                0 <= i < old(self).sessions@.len() && (#[trigger] old(self).sessions@[i]).session_id@
                    == id@,
            forall|i: int|
                0 <= i < old(self).sessions@.len() ==> {
                    let s = #[trigger] old(self).sessions@[i];
                    let t = final(self).sessions@[i];
                    if s.session_id@ == id@ {
                        &&& t.terminated
                        &&& t.terminated_at == (if s.terminated { s.terminated_at } else { now })
                        &&& t == (Session { terminated: t.terminated, terminated_at: t.terminated_at, ..s })
                    } else {
                        t == s
                    }
                },
    {
        match self.find_session(id) {
            None => false,
            Some(i) => {
                let ghost before = self.sessions@;
                let mut session = self.sessions.remove(i);
                session.terminate_at(now);
                self.sessions.insert(i, session);
                proof {
                    assert forall|k: int| 0 <= k < before.len() && k != i implies #[trigger] self.sessions@[k]
                        == before[k] by {
                        if k < i {
                        } else {
                        }
                    }
                    assert forall|k: int| 0 <= k < before.len() && k != i implies (#[trigger] before[k]).session_id@
                        != id@ by {
                        if k < i {
                            assert(before[k].session_id@ != before[i as int].session_id@);
                        } else {
                            assert(before[i as int].session_id@ != before[k].session_id@);
                        }
                    }
                }
                true
            },
        }
    }
    /// Removes the terminated sessions from the table, keeping the order of
    /// the others.
    pub fn purge_terminated(&mut self)
        requires
            old(self).wf(),
        ensures
            final(self).wf(),
            final(self).last_session_id == old(self).last_session_id,
            final(self).sessions@ == old(self).sessions@.filter(is_live()),
    {
        let ghost s0 = self.sessions@;
        let ghost mut k: int = 0;
        let mut i: usize = 0;
        while i < self.sessions.len()
            invariant
                self.wf(),
                self.last_session_id == old(self).last_session_id,
                s0 == old(self).sessions@,
                0 <= k <= s0.len(),
                i == s0.subrange(0, k).filter(is_live()).len(),
                self.sessions@ == s0.subrange(0, k).filter(is_live()) + s0.subrange(k, s0.len() as int),
            decreases self.sessions@.len() - i,
        {
            let ghost before = self.sessions@;
            let ghost kept = s0.subrange(0, k).filter(is_live());
            proof {
                assert(s0.subrange(0, k + 1).drop_last() =~= s0.subrange(0, k));
                assert(before[i as int] == s0[k]);
                reveal(Seq::filter);
            }
            if self.sessions[i].terminated {
                let _ = self.sessions.remove(i);
                proof {
                    assert(self.sessions@ =~= kept + s0.subrange(k + 1, s0.len() as int));
                    assert forall|a: int| 0 <= a < self.sessions@.len() implies #[trigger] self.sessions@[a]
                        == before[if a < i { a } else { a + 1 }] by {}
                    assert forall|a: int, b: int| 0 <= a < b < self.sessions@.len() implies (
                    #[trigger] self.sessions@[a]).session_id@ != (#[trigger] self.sessions@[b]).session_id@ by {
                        let a2 = if a < i { a } else { a + 1 };
                        let b2 = if b < i { b } else { b + 1 };
                        assert(self.sessions@[a] == before[a2]);
                        assert(self.sessions@[b] == before[b2]);
                        assert(before[a2].session_id@ != before[b2].session_id@);
                    }
                    assert forall|a: int| 0 <= a < self.sessions@.len() implies {
                        let s = #[trigger] self.sessions@[a];
                        &&& s.session_id@.0 == 1
                        &&& s.session_id@.1 is Numeric
                        &&& 1 <= id_number(s) <= self.last_session_id
                    } by {
                        let a2 = if a < i { a } else { a + 1 };
                        assert(self.sessions@[a] == before[a2]);
                    }
                }
            } else {
                i = i + 1;
                proof {
                    assert(self.sessions@ =~= s0.subrange(0, k + 1).filter(is_live()) + s0.subrange(
                        k + 1,
                        s0.len() as int,
                    ));
                }
            }
            proof {
                k = k + 1;
            }
        }
        proof {
            assert(s0.subrange(0, k) =~= s0);
            assert(self.sessions@ =~= s0.filter(is_live()));
        }
    }
}

} // verus!
