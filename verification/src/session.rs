//! The session store: server-side records correlating live logins to the
//! session identifiers embedded in bearer tokens.
//!
//! A session is only ever created or deleted, never mutated; session
//! identifiers are unique across the store.

use vstd::prelude::*;

use crate::errors::AuthError;

verus! {

/// Abstract value of a [`Session`].
pub ghost struct SessionView {
    pub id: int,
    pub session_id: Seq<char>,
    pub user_id: int,
    pub created_at: int,
}

/// One live login.
pub struct Session {
    /// Surrogate id, internal to the store.
    pub id: i32,
    /// Random unique token correlating this login to a bearer.
    pub session_id: String,
    /// The owning user's surrogate id.
    pub user_id: i32,
    /// Creation time, epoch seconds.
    pub created_at: u64,
}

impl View for Session {
    type V = SessionView;

    open spec fn view(&self) -> SessionView {
        SessionView {
            id: self.id as int,
            session_id: self.session_id@,
            user_id: self.user_id as int,
            created_at: self.created_at as int,
        }
    }
}

impl DeepView for Session {
    type V = SessionView;

    open spec fn deep_view(&self) -> SessionView {
        self.view()
    }
}

impl Clone for Session {
    fn clone(&self) -> (r: Self)
        ensures
            r == *self,
    {
        Session {
            id: self.id,
            session_id: self.session_id.clone(),
            user_id: self.user_id,
            created_at: self.created_at,
        }
    }
}

/// Whether some record in `m` carries the session identifier `sid`.
pub open spec fn has_session(m: Seq<SessionView>, sid: Seq<char>) -> bool {
    exists|i: int| 0 <= i < m.len() && m[i].session_id == sid
}

/// Keeps the sessions whose identifier differs from `sid`.
pub open spec fn keep_other_sessions(sid: Seq<char>) -> spec_fn(SessionView) -> bool {
    |s: SessionView| s.session_id != sid
}

/// Keeps the sessions belonging to users other than `uid`.
pub open spec fn keep_other_users(uid: int) -> spec_fn(SessionView) -> bool {
    |s: SessionView| s.user_id != uid
}

/// The store of live sessions.
pub struct SessionStore {
    sessions: Vec<Session>,
    next_id: i32,
}

impl SessionStore {
    /// The records currently held.
    pub closed spec fn model(self) -> Seq<SessionView> {
        self.sessions.deep_view()
    }

    /// Session identifiers are pairwise distinct.
    pub open spec fn distinct_sids(m: Seq<SessionView>) -> bool {
        forall|i: int, j: int| 0 <= i < j < m.len() ==> m[i].session_id != m[j].session_id
    }

    /// The store's invariant.
    pub open spec fn wf(self) -> bool {
        Self::distinct_sids(self.model())
    }

    /// The surrogate-id counter is used up; no further session can be stored.
    pub closed spec fn at_capacity(self) -> bool {
        self.next_id == i32::MAX
    }

    /// An empty store.
    pub fn new() -> (r: SessionStore)
        ensures
            r.wf(),
            r.model() == Seq::<SessionView>::empty(),
            !r.at_capacity(),
    {
        let r = SessionStore { sessions: Vec::new(), next_id: 1 };
        proof {
            assert(r.model() =~= Seq::<SessionView>::empty());
        }
        r
    }

    /// Insert a new session under a caller-supplied identifier. The store is
    /// the authority on uniqueness: a colliding identifier is refused, so a
    /// stored record is always fresh.
    pub fn create(&mut self, session_id: String, user_id: i32, created_at: u64) -> (r: Result<
        Session,
        AuthError,
    >)
        requires
            old(self).wf(),
        ensures
            final(self).wf(),
            r is Err <==> (has_session(old(self).model(), session_id@) || old(self).at_capacity()),
            match r {
                Ok(s) => {
                    &&& s@.session_id == session_id@
                    &&& s@.user_id == user_id as int
                    &&& s@.created_at == created_at as int
                    &&& !has_session(old(self).model(), session_id@)
                    &&& final(self).model() == old(self).model().push(s@)
                },
                Err(e) => e == AuthError::InternalServerError && *final(self) == *old(self),
            },
    {
        let n = self.sessions.len();
        for i in 0..n
            invariant
                n == self.sessions@.len(),
                *self == *old(self),
                old(self).wf(),
                forall|j: int| 0 <= j < i ==> self.model()[j].session_id != session_id@,
        {
            assert(self.model()[i as int] == self.sessions@[i as int]@);
            if self.sessions[i].session_id == session_id {
                proof {
                    assert(has_session(self.model(), session_id@));
                    assert forall|a: int, b: int|
                        0 <= a < b < self.model().len() implies self.model()[a].session_id
                        != self.model()[b].session_id by {
                        assert(self.model()[a] == old(self).model()[a]);
                        assert(self.model()[b] == old(self).model()[b]);
                    }
                }
                return Err(AuthError::InternalServerError);
            }
        }
        if self.next_id == i32::MAX {
            proof {
                assert forall|a: int, b: int|
                    0 <= a < b < self.model().len() implies self.model()[a].session_id
                    != self.model()[b].session_id by {
                    assert(self.model()[a] == old(self).model()[a]);
                    assert(self.model()[b] == old(self).model()[b]);
                }
            }
            return Err(AuthError::InternalServerError);
        }
        assert(!has_session(old(self).model(), session_id@));
        let id = self.next_id;
        self.next_id = id + 1;
        let s = Session { id, session_id, user_id, created_at };
        let c = s.clone();
        self.sessions.push(c);
        proof {
            assert(self.model() =~= old(self).model().push(s@));
            assert forall|a: int, b: int|
                0 <= a < b < self.model().len() implies self.model()[a].session_id
                != self.model()[b].session_id by {
                if b < old(self).model().len() {
                    assert(self.model()[a] == old(self).model()[a]);
                    assert(self.model()[b] == old(self).model()[b]);
                } else {
                    assert(self.model()[a] == old(self).model()[a]);
                    assert(self.model()[b] == s@);
                }
            }
        }
        Ok(s)
    }

    /// Remove the session carrying `session_id`, if any; removing an absent
    /// identifier is a no-op, so deletion is idempotent.
    pub fn delete(&mut self, session_id: &String) -> (r: Result<(), AuthError>)
        requires
            old(self).wf(),
        ensures
            final(self).wf(),
            r is Ok,
            final(self).model() == old(self).model().filter(keep_other_sessions(session_id@)),
    {
        let ghost pred = keep_other_sessions(session_id@);
        let mut kept: Vec<Session> = Vec::new();
        let n = self.sessions.len();
        proof {
            assert(old(self).model().take(0) =~= Seq::<SessionView>::empty());
            reveal_with_fuel(Seq::<_>::filter, 2);
        }
        for i in 0..n
            invariant
                n == self.sessions@.len(),
                *self == *old(self),
                old(self).wf(),
                kept.deep_view() == old(self).model().take(i as int).filter(pred),
                pred == keep_other_sessions(session_id@),
        {
            let ghost taken = old(self).model().take(i as int);
            let ghost sv = self.sessions@[i as int]@;
            assert(self.model()[i as int] == sv);
            let ghost kpre = kept.deep_view();
            if !(self.sessions[i].session_id == *session_id) {
                let c = self.sessions[i].clone();
                kept.push(c);
                proof {
                    assert(kept.deep_view() =~= kpre.push(sv));
                }
            }
            proof {
                reveal_with_fuel(Seq::<_>::filter, 2);
                assert(old(self).model().take(i + 1) =~= taken + seq![sv]);
                Seq::filter_distributes_over_add(taken, seq![sv], pred);
                assert(seq![sv].drop_last() =~= Seq::<SessionView>::empty());
                if pred(sv) {
                    assert(seq![sv].filter(pred) =~= seq![sv]);
                    assert(kept.deep_view() =~= taken.filter(pred) + seq![sv]);
                } else {
                    assert(seq![sv].filter(pred) =~= Seq::<SessionView>::empty());
                    assert(kept.deep_view() =~= taken.filter(pred));
                }
            }
        }
        proof {
            assert(old(self).model().take(n as int) =~= old(self).model());
            crate::seqx::lemma_filter_distinct_by(
                old(self).model(),
                pred,
                |s: SessionView| s.session_id,
            );
        }
        self.sessions = kept;
        Ok(())
    }

    /// Remove every session belonging to `user_id`.
    pub fn delete_all(&mut self, user_id: i32) -> (r: Result<(), AuthError>)
        requires
            old(self).wf(),
        ensures
            final(self).wf(),
            r is Ok,
            final(self).model() == old(self).model().filter(keep_other_users(user_id as int)),
    {
        let ghost pred = keep_other_users(user_id as int);
        let mut kept: Vec<Session> = Vec::new();
        let n = self.sessions.len();
        proof {
            assert(old(self).model().take(0) =~= Seq::<SessionView>::empty());
            reveal_with_fuel(Seq::<_>::filter, 2);
        }
        for i in 0..n
            invariant
                n == self.sessions@.len(),
                *self == *old(self),
                old(self).wf(),
                kept.deep_view() == old(self).model().take(i as int).filter(pred),
                pred == keep_other_users(user_id as int),
        {
            let ghost taken = old(self).model().take(i as int);
            let ghost sv = self.sessions@[i as int]@;
            assert(self.model()[i as int] == sv);
            let ghost kpre = kept.deep_view();
            if !(self.sessions[i].user_id == user_id) {
                let c = self.sessions[i].clone();
                kept.push(c);
                proof {
                    assert(kept.deep_view() =~= kpre.push(sv));
                }
            }
            proof {
                reveal_with_fuel(Seq::<_>::filter, 2);
                assert(old(self).model().take(i + 1) =~= taken + seq![sv]);
                Seq::filter_distributes_over_add(taken, seq![sv], pred);
                assert(seq![sv].drop_last() =~= Seq::<SessionView>::empty());
                if pred(sv) {
                    assert(seq![sv].filter(pred) =~= seq![sv]);
                    assert(kept.deep_view() =~= taken.filter(pred) + seq![sv]);
                } else {
                    assert(seq![sv].filter(pred) =~= Seq::<SessionView>::empty());
                    assert(kept.deep_view() =~= taken.filter(pred));
                }
            }
        }
        proof {
            assert(old(self).model().take(n as int) =~= old(self).model());
            crate::seqx::lemma_filter_distinct_by(
                old(self).model(),
                pred,
                |s: SessionView| s.session_id,
            );
        }
        self.sessions = kept;
        Ok(())
    }
}

} // verus!
