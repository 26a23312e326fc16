//! Authenticators.

use vstd::prelude::*;

use crate::text::str_eq;

verus! {

/// Admin authenticator.
#[derive(Debug, Clone)]
pub struct AdminAuthenticator {
    /// Realm.
    realm: String,
    /// User name.
    user: String,
    /// Password.
    password: Option<String>,
}

impl AdminAuthenticator {
    /// The realm announced to clients.
    pub closed spec fn spec_realm(&self) -> Seq<char> {
        self.realm@
    }

    /// The only user name that is let in.
    pub closed spec fn spec_user(&self) -> Seq<char> {
        self.user@
    }

    /// The password that user has to present, if one is set.
    pub closed spec fn spec_password(&self) -> Option<Seq<char>> {
        match self.password {
            Some(p) => Some(p@),
            None => None,
        }
    }

    /// Whether the presented credentials are the configured ones: the user
    /// names agree, and either both passwords are absent or both are present
    /// and agree.
    pub open spec fn accepts(&self, user: Seq<char>, password: Option<Seq<char>>) -> bool {
        self.spec_user() == user && self.spec_password() == password
    }

    /// Creates a new admin authenticator.
    pub fn new(realm: String, user: String, password: Option<String>) -> (auth: Self)
        ensures
            auth.spec_realm() == realm@,
            auth.spec_user() == user@,
            auth.spec_password() == match password {
                Some(p) => Some(p@),
                None => None,
            },
    {
        Self { realm, user, password }
    }

    /// Returns the realm.
    pub fn realm(&self) -> (realm: &str)
        ensures
            realm@ == self.spec_realm(),
    {
        self.realm.as_str()
    }

    /// Checks whether the authentication should be success.
    pub fn is_authenticated(&self, user: &str, password: Option<&str>) -> (ok: bool)
        ensures
            ok == self.accepts(
                user@,
                match password {
                    Some(p) => Some(p@),
                    None => None,
                },
            ),
    {
        if !str_eq(self.user.as_str(), user) {
            return false;
        }
        match (&self.password, password) {
            (Some(own), Some(given)) => str_eq(own.as_str(), given),
            (None, None) => true,
            _ => false,
        }
    }
}

} // verus!
