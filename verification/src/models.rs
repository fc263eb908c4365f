//! Data carried between the authentication flows and their callers.

use vstd::prelude::*;

verus! {

/// Abstract value of a [`SessionUser`]: the five claim fields.
pub ghost struct SessionUserView {
    pub session_id: Seq<char>,
    pub pid: Seq<char>,
    pub first_name: Seq<char>,
    pub last_name: Seq<char>,
    pub email: Seq<char>,
}

/// The claim payload embedded inside a signed login bearer: the session
/// identifier plus the public identity of its user. Never persisted.
pub struct SessionUser {
    pub session_id: String,
    pub pid: String,
    pub first_name: String,
    pub last_name: String,
    pub email: String,
}

impl View for SessionUser {
    type V = SessionUserView;

    open spec fn view(&self) -> SessionUserView {
        SessionUserView {
            session_id: self.session_id@,
            pid: self.pid@,
            first_name: self.first_name@,
            last_name: self.last_name@,
            email: self.email@,
        }
    }
}

impl Clone for SessionUser {
    fn clone(&self) -> (r: Self)
        ensures
            r == *self,
    {
        SessionUser {
            session_id: self.session_id.clone(),
            pid: self.pid.clone(),
            first_name: self.first_name.clone(),
            last_name: self.last_name.clone(),
            email: self.email.clone(),
        }
    }
}

/// What a caller receives on successful authentication: the signed token and
/// the claims it embeds.
pub struct AuthBearer {
    pub token: String,
    pub session_user: Option<SessionUser>,
}

/// Abstract value of a [`UserData`].
pub ghost struct UserDataView {
    pub pid: Seq<char>,
    pub first_name: Seq<char>,
    pub last_name: Seq<char>,
    pub email: Seq<char>,
    pub created_at: Seq<char>,
    pub updated_at: Seq<char>,
}

/// The externally visible shape of a user record. It has no password field
/// at all, so secret material cannot cross this boundary.
pub struct UserData {
    pub pid: String,
    pub first_name: String,
    pub last_name: String,
    pub email: String,
    pub created_at: String,
    pub updated_at: String,
}

impl View for UserData {
    type V = UserDataView;

    open spec fn view(&self) -> UserDataView {
        UserDataView {
            pid: self.pid@,
            first_name: self.first_name@,
            last_name: self.last_name@,
            email: self.email@,
            created_at: self.created_at@,
            updated_at: self.updated_at@,
        }
    }
}

} // verus!
