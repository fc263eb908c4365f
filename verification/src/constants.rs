//! Fixed policy of the authentication subsystem: key names and token
//! lifetimes.

use vstd::prelude::*;
use vstd::string::*;

verus! {

/// Named-secret keys and token durations. Login bearers and magic links use
/// independent secrets and lifetimes.
pub struct Constants {
    /// Configuration key naming the login-bearer secret.
    pub jwt_key_var: String,
    /// Configuration key naming the magic-link secret.
    pub magic_link_key_var: String,
    /// Login bearer lifetime: seven days, in seconds.
    pub login_duration: i64,
    /// Magic-link lifetime: fifteen minutes, in seconds.
    pub magic_link_duration: i64,
}

impl Constants {
    pub fn new() -> (r: Constants)
        ensures
            r.jwt_key_var@ == "IAM_JWT_SECRET"@,
            r.magic_link_key_var@ == "IAM_MAGIC_JWT_SECRET"@,
            r.login_duration == 604800,
            r.magic_link_duration == 900,
    {
        Constants {
            jwt_key_var: String::from_str("IAM_JWT_SECRET"),
            magic_link_key_var: String::from_str("IAM_MAGIC_JWT_SECRET"),
            login_duration: 604800,
            magic_link_duration: 900,
        }
    }
}

} // verus!
