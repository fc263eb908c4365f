//! The user directory: lookup and creation of user records.
//!
//! The store itself is the authority on uniqueness: an insert that would
//! duplicate an email is refused with a distinct error, so no sequence of
//! calls — in whatever interleaving a server schedules them — can produce two
//! records with one email. A prior lookup is an optimization, never the
//! guard.

use vstd::prelude::*;

use crate::clock::now_seconds;
use crate::idgen::new_uuid;

verus! {

/// Account status. Closing an account makes it `Inactive`; records are never
/// hard-deleted.
#[derive(Debug, Clone, Copy, PartialEq, Eq, Structural)]
pub enum Status {
    Active,
    Inactive,
}

/// Abstract value of a [`UserRecord`].
pub ghost struct UserView {
    pub id: int,
    pub pid: Seq<char>,
    pub email: Seq<char>,
    pub first_name: Seq<char>,
    pub last_name: Seq<char>,
    pub password_hash: Option<Seq<char>>,
    pub status: Status,
    pub created_at: int,
    pub updated_at: int,
}

/// One stored user.
pub struct UserRecord {
    /// Surrogate id, internal to the store; never exposed.
    pub id: i32,
    /// Public opaque identifier, unique and immutable for the record's life.
    pub pid: String,
    /// Unique across active and inactive users.
    pub email: String,
    pub first_name: String,
    pub last_name: String,
    /// Present only under the password-based login variant; always stripped
    /// before a record is handed to a caller.
    pub password_hash: Option<String>,
    pub status: Status,
    /// Epoch seconds.
    pub created_at: u64,
    /// Epoch seconds.
    pub updated_at: u64,
}

impl View for UserRecord {
    type V = UserView;

    open spec fn view(&self) -> UserView {
        UserView {
            id: self.id as int,
            pid: self.pid@,
            email: self.email@,
            first_name: self.first_name@,
            last_name: self.last_name@,
            password_hash: self.password_hash.deep_view(),
            status: self.status,
            created_at: self.created_at as int,
            updated_at: self.updated_at as int,
        }
    }
}

impl DeepView for UserRecord {
    type V = UserView;

    open spec fn deep_view(&self) -> UserView {
        self.view()
    }
}

impl Clone for UserRecord {
    fn clone(&self) -> (r: Self)
        ensures
            r == *self,
    {
        UserRecord {
            id: self.id,
            pid: self.pid.clone(),
            email: self.email.clone(),
            first_name: self.first_name.clone(),
            last_name: self.last_name.clone(),
            password_hash: match &self.password_hash {
                Some(h) => Some(h.clone()),
                None => None,
            },
            status: self.status,
            created_at: self.created_at,
            updated_at: self.updated_at,
        }
    }
}

/// Errors of the storage layer. A uniqueness violation is distinct from any
/// other failure so that callers can map it to a conflict.
#[derive(Debug, Clone, Copy, PartialEq, Eq, Structural)]
pub enum StoreError {
    /// The insert would duplicate a unique field.
    UniqueViolation,
    /// Any other storage failure.
    Internal,
}

/// Whether some record in `m` carries `email`.
pub open spec fn email_taken(m: Seq<UserView>, email: Seq<char>) -> bool {
    exists|i: int| 0 <= i < m.len() && m[i].email == email
}

/// Whether some active record in `m` carries `email`.
pub open spec fn active_email_taken(m: Seq<UserView>, email: Seq<char>) -> bool {
    exists|i: int| 0 <= i < m.len() && m[i].email == email && m[i].status == Status::Active
}

/// Whether some record in `m` carries `pid`.
pub open spec fn pid_taken(m: Seq<UserView>, pid: Seq<char>) -> bool {
    exists|i: int| 0 <= i < m.len() && m[i].pid == pid
}

/// Uniqueness law: a directory satisfying the storage constraint never
/// holds two records with one email, whatever sequence of operations
/// produced it — the guard is the constraint itself, not any prior lookup.
pub proof fn lemma_email_uniqueness(m: Seq<UserView>, i: int, j: int)
    requires
        UserService::distinct_keys(m),
        0 <= i < m.len(),
        0 <= j < m.len(),
        i != j,
    ensures
        m[i].email != m[j].email,
{
}

/// The user directory.
pub struct UserService {
    users: Vec<UserRecord>,
    next_id: i32,
}

impl UserService {
    /// The records currently held.
    pub closed spec fn model(self) -> Seq<UserView> {
        self.users.deep_view()
    }

    /// Emails are pairwise distinct — across active and inactive users — and
    /// so are public identifiers.
    pub open spec fn distinct_keys(m: Seq<UserView>) -> bool {
        &&& forall|i: int, j: int| 0 <= i < j < m.len() ==> m[i].email != m[j].email
        &&& forall|i: int, j: int| 0 <= i < j < m.len() ==> m[i].pid != m[j].pid
    }

    /// The directory's invariant.
    pub open spec fn wf(self) -> bool {
        Self::distinct_keys(self.model())
    }

    /// An empty directory.
    pub fn new() -> (r: UserService)
        ensures
            r.wf(),
            r.model() == Seq::<UserView>::empty(),
    {
        let r = UserService { users: Vec::new(), next_id: 1 };
        proof {
            assert(r.model() =~= Seq::<UserView>::empty());
        }
        r
    }

    /// Point lookup by email, over active and inactive users alike.
    pub fn find_user_by_email(&self, email: &String) -> (r: Option<UserRecord>)
        requires
            self.wf(),
        ensures
            r is None <==> !email_taken(self.model(), email@),
            r matches Some(u) ==> u@.email == email@ && exists|i: int|
                0 <= i < self.model().len() && self.model()[i] == u@,
    {
        let n = self.users.len();
        for i in 0..n
            invariant
                n == self.users@.len(),
                forall|j: int| 0 <= j < i ==> self.model()[j].email != email@,
        {
            assert(self.model()[i as int] == self.users@[i as int]@);
            if self.users[i].email == *email {
                return Some(self.users[i].clone());
            }
        }
        None
    }

    /// Point lookup by email, restricted to active users.
    pub fn find_active_user_by_email(&self, email: &String) -> (r: Option<UserRecord>)
        requires
            self.wf(),
        ensures
            r is None <==> !active_email_taken(self.model(), email@),
            r matches Some(u) ==> u@.email == email@ && u@.status == Status::Active && exists|
                i: int,
            |
                0 <= i < self.model().len() && self.model()[i] == u@,
    {
        let n = self.users.len();
        for i in 0..n
            invariant
                n == self.users@.len(),
                forall|j: int|
                    0 <= j < i ==> !(self.model()[j].email == email@ && self.model()[j].status
                        == Status::Active),
        {
            assert(self.model()[i as int] == self.users@[i as int]@);
            if self.users[i].email == *email {
                if matches!(self.users[i].status, Status::Active) {
                    return Some(self.users[i].clone());
                }
            }
        }
        None
    }

    /// Point lookup by public identifier.
    pub fn find_user_by_pid(&self, pid: &String) -> (r: Option<UserRecord>)
        requires
            self.wf(),
        ensures
            r is None <==> !pid_taken(self.model(), pid@),
            r matches Some(u) ==> u@.pid == pid@ && exists|i: int|
                0 <= i < self.model().len() && self.model()[i] == u@,
    {
        let n = self.users.len();
        for i in 0..n
            invariant
                n == self.users@.len(),
                forall|j: int| 0 <= j < i ==> self.model()[j].pid != pid@,
        {
            assert(self.model()[i as int] == self.users@[i as int]@);
            if self.users[i].pid == *pid {
                return Some(self.users[i].clone());
            }
        }
        None
    }

    /// Insert a new user. The email-uniqueness check here is the storage
    /// constraint itself: a duplicate email is refused with
    /// [`StoreError::UniqueViolation`], whatever any earlier lookup said.
    /// A fresh public identifier is drawn and checked against the store.
    pub fn create_user(
        &mut self,
        email: String,
        first_name: String,
        last_name: String,
        password_hash: Option<String>,
    ) -> (r: Result<UserRecord, StoreError>)
        requires
            old(self).wf(),
        ensures
            final(self).wf(),
            r matches Err(e) ==> *final(self) == *old(self) && (e == StoreError::UniqueViolation
                <==> email_taken(old(self).model(), email@)),
            r is Ok ==> !email_taken(old(self).model(), email@),
            r matches Ok(u) ==> {
                &&& u@.email == email@
                &&& u@.first_name == first_name@
                &&& u@.last_name == last_name@
                &&& u@.password_hash == password_hash.deep_view()
                &&& u@.status == Status::Active
                &&& !pid_taken(old(self).model(), u@.pid)
                &&& u@.created_at == u@.updated_at
                &&& final(self).model() == old(self).model().push(u@)
            },
    {
        let n = self.users.len();
        for i in 0..n
            invariant
                n == self.users@.len(),
                *self == *old(self),
                old(self).wf(),
                forall|j: int| 0 <= j < i ==> self.model()[j].email != email@,
        {
            assert(self.model()[i as int] == self.users@[i as int]@);
            if self.users[i].email == email {
                proof {
                    assert(email_taken(self.model(), email@));
                }
                return Err(StoreError::UniqueViolation);
            }
        }
        let pid = new_uuid();
        let m = self.users.len();
        for i in 0..m
            invariant
                m == self.users@.len(),
                *self == *old(self),
                old(self).wf(),
                forall|j: int| 0 <= j < i ==> self.model()[j].pid != pid@,
                forall|j: int| 0 <= j < m ==> self.model()[j].email != email@,
        {
            assert(self.model()[i as int] == self.users@[i as int]@);
            if self.users[i].pid == pid {
                return Err(StoreError::Internal);
            }
        }
        if self.next_id == i32::MAX {
            return Err(StoreError::Internal);
        }
        let t = now_seconds();
        let now: u64 = if t < 0 {
            0
        } else {
            t as u64
        };
        let id = self.next_id;
        self.next_id = id + 1;
        let u = UserRecord {
            id,
            pid,
            email,
            first_name,
            last_name,
            password_hash,
            status: Status::Active,
            created_at: now,
            updated_at: now,
        };
        let c = u.clone();
        self.users.push(c);
        proof {
            assert(self.model() =~= old(self).model().push(u@));
            assert forall|a: int, b: int|
                0 <= a < b < self.model().len() implies self.model()[a].email != self.model()[
                b
            ].email && self.model()[a].pid != self.model()[b].pid by {
                assert(self.model()[a] == old(self).model()[a]);
                if b < old(self).model().len() {
                    assert(self.model()[b] == old(self).model()[b]);
                } else {
                    assert(self.model()[b] == u@);
                }
            }
        }
        Ok(u)
    }

    /// Overwrite the status of the record carrying `pid`, touching its
    /// update time; `None` exactly when no record carries `pid`.
    pub fn set_status_by_pid(&mut self, pid: &String, status: Status) -> (r: Option<UserRecord>)
        requires
            old(self).wf(),
        ensures
            final(self).wf(),
            r is None <==> !pid_taken(old(self).model(), pid@),
            r is None ==> *final(self) == *old(self),
            r matches Some(u) ==> exists|i: int|
                {
                    &&& 0 <= i < old(self).model().len()
                    &&& old(self).model()[i].pid == pid@
                    &&& u@ == (UserView { status, updated_at: u@.updated_at, ..old(self).model()[i] })
                    &&& u@.status == status
                    &&& #[trigger] final(self).model() == old(self).model().update(i, u@)
                },
    {
        let n = self.users.len();
        for i in 0..n
            invariant
                n == self.users@.len(),
                *self == *old(self),
                old(self).wf(),
                forall|j: int| 0 <= j < i ==> self.model()[j].pid != pid@,
        {
            assert(self.model()[i as int] == self.users@[i as int]@);
            if self.users[i].pid == *pid {
                let t = now_seconds();
                let now: u64 = if t < 0 {
                    0
                } else {
                    t as u64
                };
                let mut u = self.users[i].clone();
                u.status = status;
                u.updated_at = now;
                let c = u.clone();
                let ghost pre = self.model();
                self.users.set(i, c);
                proof {
                    assert(self.model() =~= pre.update(i as int, u@));
                    assert forall|a: int, b: int|
                        0 <= a < b < self.model().len() implies self.model()[a].email
                        != self.model()[b].email && self.model()[a].pid != self.model()[b].pid by {
                        assert(self.model()[a].email == pre[a].email && self.model()[a].pid
                            == pre[a].pid);
                        assert(self.model()[b].email == pre[b].email && self.model()[b].pid
                            == pre[b].pid);
                    }
                }
                return Some(u);
            }
        }
        None
    }
}

} // verus!
