//! Conversions between stored records and the shapes handed to callers, and
//! the template-path conventions.

use vstd::prelude::*;
use vstd::string::*;

use crate::models::{SessionUser, UserData};
use crate::text::{dec_digits, u64_to_dec};
use crate::users::UserRecord;

verus! {

/// Build the claim payload for a user's fresh session.
pub fn user_to_session(user: UserRecord, session_id: String) -> (r: SessionUser)
    ensures
        r@.session_id == session_id@,
        r@.pid == user@.pid,
        r@.first_name == user@.first_name,
        r@.last_name == user@.last_name,
        r@.email == user@.email,
{
    SessionUser {
        session_id,
        pid: user.pid,
        first_name: user.first_name,
        last_name: user.last_name,
        email: user.email,
    }
}

/// The externally visible slice of a record: public identity and timestamps,
/// never the password hash — [`UserData`] has no field that could carry it.
pub fn extract_user_api_data(user: UserRecord) -> (r: UserData)
    ensures
        r@.pid == user@.pid,
        r@.first_name == user@.first_name,
        r@.last_name == user@.last_name,
        r@.email == user@.email,
        r@.created_at == dec_digits(user@.created_at as nat),
        r@.updated_at == dec_digits(user@.updated_at as nat),
{
    let created_at = u64_to_dec(user.created_at);
    let updated_at = u64_to_dec(user.updated_at);
    UserData {
        pid: user.pid,
        first_name: user.first_name,
        last_name: user.last_name,
        email: user.email,
        created_at,
        updated_at,
    }
}

/// Where a body template lives, by template name.
pub fn get_render_template_path(template: String) -> (r: String)
    ensures
        r@ == "templates/"@ + template@ + ".html"@,
{
    let mut out = String::from_str("templates/");
    out.append(template.as_str());
    out.append(".html");
    out
}

/// Where a subject template lives, by template name.
pub fn get_subject_template_path(template: String) -> (r: String)
    ensures
        r@ == "templates/"@ + template@ + "_subject.html"@,
{
    let mut out = String::from_str("templates/");
    out.append(template.as_str());
    out.append("_subject.html");
    out
}

} // verus!
