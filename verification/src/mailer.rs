//! Mail identities and the outcome shape of the mail collaborator.
//!
//! The transport itself (an SMTP client) lives outside the library; the
//! library prepares everything it consumes — recipient, subject, body — and
//! maps its outcome back into the dispatcher's result.

use vstd::prelude::*;
use vstd::string::*;

verus! {

/// What the mail collaborator reports for one send.
pub enum SendEmailResult {
    Sent(bool),
    Error(String),
}

/// A mail identity: an address with an optional display name.
pub struct MailUser {
    name: Option<String>,
    email: String,
}

impl MailUser {
    /// The display name.
    pub closed spec fn spec_name(self) -> Option<Seq<char>> {
        self.name.deep_view()
    }

    /// The address.
    pub closed spec fn spec_email(self) -> Seq<char> {
        self.email@
    }

    pub fn new(email: String, name: Option<String>) -> (r: MailUser)
        ensures
            r.spec_email() == email@,
            r.spec_name() == name.deep_view(),
    {
        MailUser { name, email }
    }

    /// Render as a mailbox: `name <address>`, or `<address>` alone.
    pub fn to_string(&self) -> (r: String)
        ensures
            match self.spec_name() {
                Some(n) => r@ == n + " <"@ + self.spec_email() + ">"@,
                None => r@ == "<"@ + self.spec_email() + ">"@,
            },
    {
        let mut out = String::new();
        match &self.name {
            Some(n) => {
                out.append(n.as_str());
                out.append(" <");
            },
            None => {
                out.append("<");
            },
        }
        out.append(self.email.as_str());
        out.append(">");
        out
    }

    /// Take over both fields of another identity.
    pub fn from_mail_user(&mut self, mu: MailUser)
        ensures
            final(self).spec_name() == mu.spec_name(),
            final(self).spec_email() == mu.spec_email(),
    {
        self.name = mu.name;
        self.email = mu.email;
    }
}

impl Clone for MailUser {
    fn clone(&self) -> (r: Self)
        ensures
            r == *self,
    {
        MailUser {
            name: match &self.name {
                Some(n) => Some(n.clone()),
                None => None,
            },
            email: self.email.clone(),
        }
    }
}

} // verus!
